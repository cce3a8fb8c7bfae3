//! The statement model: what a query is before it is rendered.

use vstd::prelude::*;
use crate::error::Error;
use crate::text::{clone_strings, strings};
use crate::value::{clone_values, values, Value, ValueView};

verus! {

/// Sort direction of one `ORDER BY` term.
#[derive(Clone, Copy, Debug, PartialEq, Eq, Structural)]
pub enum Order {
    ASC,
    DESC,
}

/// The keyword that ties a predicate to the one before it.
#[derive(Clone, Copy, Debug, PartialEq, Eq, Structural)]
pub enum QueryPosition {
    AND,
    OR,
}

/// The kind of a join.
#[derive(Clone, Copy, Debug, PartialEq, Eq, Structural)]
pub enum JoinType {
    InnerJoin,
    LeftJoin,
    RightJoin,
    FullOuterJoin,
    CrossJoin,
}

/// One join: `<kind> JOIN table ON column operator column_table`.
#[derive(Debug, PartialEq, Eq)]
pub struct JoinQuery {
    pub table: String,
    pub column: String,
    pub operator: String,
    pub column_table: String,
    pub join_type: JoinType,
}

/// What a [`JoinQuery`] holds.
pub struct JoinQueryView {
    pub table: Seq<char>,
    pub column: Seq<char>,
    pub operator: Seq<char>,
    pub column_table: Seq<char>,
    pub join_type: JoinType,
}

impl View for JoinQuery {
    type V = JoinQueryView;

    open spec fn view(&self) -> JoinQueryView {
        JoinQueryView {
            table: self.table@,
            column: self.column@,
            operator: self.operator@,
            column_table: self.column_table@,
            join_type: self.join_type,
        }
    }
}

impl Clone for JoinQuery {
    fn clone(&self) -> (out: JoinQuery)
        ensures
            out@ == self@,
    {
        JoinQuery {
            table: self.table.clone(),
            column: self.column.clone(),
            operator: self.operator.clone(),
            column_table: self.column_table.clone(),
            join_type: self.join_type,
        }
    }
}

/// The views of a sequence of joins, in order.
pub open spec fn joins(items: Seq<JoinQuery>) -> Seq<JoinQueryView> {
    items.map_values(|j: JoinQuery| j@)
}

/// One `ORDER BY` term.
#[derive(Debug, PartialEq, Eq)]
pub struct OrderQuery {
    pub column: String,
    pub order: Order,
}

/// What an [`OrderQuery`] holds.
pub struct OrderQueryView {
    pub column: Seq<char>,
    pub order: Order,
}

impl View for OrderQuery {
    type V = OrderQueryView;

    open spec fn view(&self) -> OrderQueryView {
        OrderQueryView { column: self.column@, order: self.order }
    }
}

impl Clone for OrderQuery {
    fn clone(&self) -> (out: OrderQuery)
        ensures
            out@ == self@,
    {
        OrderQuery { column: self.column.clone(), order: self.order }
    }
}

/// The views of a sequence of `ORDER BY` terms, in order.
pub open spec fn orders(items: Seq<OrderQuery>) -> Seq<OrderQueryView> {
    items.map_values(|o: OrderQuery| o@)
}

/// One predicate of a `WHERE` or `HAVING` clause: a comparison of a column
/// with a bound value, or a parenthesised group of predicates.
#[derive(Debug, PartialEq, Eq)]
pub enum WhereQuery {
    Condition { column: String, operator: String, position: Option<QueryPosition> },
    Group { position: Option<QueryPosition>, queries: Vec<WhereQuery> },
}

/// What a [`WhereQuery`] holds.
pub enum WhereQueryView {
    Condition { column: Seq<char>, operator: Seq<char>, position: Option<QueryPosition> },
    Group { position: Option<QueryPosition>, queries: Seq<WhereQueryView> },
}

impl WhereQueryView {
    /// The keyword in front of this predicate, if it has one.
    pub open spec fn position(self) -> Option<QueryPosition> {
        match self {
            WhereQueryView::Condition { position, .. } => position,
            WhereQueryView::Group { position, .. } => position,
        }
    }
}

impl View for WhereQuery {
    type V = WhereQueryView;

    open spec fn view(&self) -> WhereQueryView
        decreases self,
    {
        match self {
            WhereQuery::Condition { column, operator, position } => WhereQueryView::Condition {
                column: column@,
                operator: operator@,
                position: *position,
            },
            WhereQuery::Group { position, queries } => WhereQueryView::Group {
                position: *position,
                queries: predicates(queries@),
            },
        }
    }
}

/// The views of a sequence of predicates, in order.
pub open spec fn predicates(items: Seq<WhereQuery>) -> Seq<WhereQueryView>
    decreases items,
{
    if items.len() == 0 {
        Seq::empty()
    } else {
        predicates(items.drop_last()).push(items.last()@)
    }
}

/// `predicates` maps element by element.
pub proof fn lemma_predicates(items: Seq<WhereQuery>)
    ensures
        predicates(items).len() == items.len(),
        forall|i: int| 0 <= i < items.len() ==> (#[trigger] predicates(items)[i]) == items[i]@,
    decreases items.len(),
{
    if items.len() > 0 {
        lemma_predicates(items.drop_last());
        assert(predicates(items) == predicates(items.drop_last()).push(items.last()@));
    } else {
        assert(predicates(items) == Seq::<WhereQueryView>::empty());
    }
}

/// The view of a list with one more predicate is the view of the list with
/// the view of that predicate appended.
pub proof fn lemma_predicates_push(items: Seq<WhereQuery>, item: WhereQuery)
    ensures
        predicates(items.push(item)) == predicates(items).push(item@),
{
    assert(items.push(item).drop_last() =~= items);
}

impl Clone for WhereQuery {
    fn clone(&self) -> (out: WhereQuery)
        ensures
            out@ == self@,
        decreases self,
    {
        match self {
            WhereQuery::Condition { column, operator, position } => WhereQuery::Condition {
                column: column.clone(),
                operator: operator.clone(),
                position: *position,
            },
            WhereQuery::Group { position, queries } => WhereQuery::Group {
                position: *position,
                queries: clone_predicates(queries),
            },
        }
    }
}

/// Copies a list of predicates.
pub fn clone_predicates(items: &Vec<WhereQuery>) -> (out: Vec<WhereQuery>)
    ensures
        predicates(out@) == predicates(items@),
    decreases items,
{
    let mut out: Vec<WhereQuery> = Vec::new();
    let mut i: usize = 0;
    while i < items.len()
        invariant
            i <= items.len(),
            predicates(out@) == predicates(items@.take(i as int)),
        decreases items.len() - i,
    {
        let ghost before = out@;
        let copy = items[i].clone();
        out.push(copy);
        proof {
            lemma_predicates_push(before, copy);
            lemma_predicates_push(items@.take(i as int), items@[i as int]);
            assert(items@.take(i + 1) =~= items@.take(i as int).push(items@[i as int]));
        }
        i += 1;
    }
    proof {
        assert(items@.take(items@.len() as int) =~= items@);
    }
    out
}

fn clone_joins(items: &Vec<JoinQuery>) -> (out: Vec<JoinQuery>)
    ensures
        joins(out@) == joins(items@),
{
    let mut out: Vec<JoinQuery> = Vec::new();
    let mut i: usize = 0;
    while i < items.len()
        invariant
            i <= items.len(),
            joins(out@) == joins(items@).take(i as int),
        decreases items.len() - i,
    {
        let ghost before = joins(out@);
        out.push(items[i].clone());
        proof {
            assert(joins(out@) =~= before.push(items@[i as int]@));
            assert(joins(items@).take(i + 1) =~= before.push(items@[i as int]@));
        }
        i += 1;
    }
    proof {
        assert(joins(items@).take(items@.len() as int) =~= joins(items@));
    }
    out
}

fn clone_orders(items: &Vec<OrderQuery>) -> (out: Vec<OrderQuery>)
    ensures
        orders(out@) == orders(items@),
{
    let mut out: Vec<OrderQuery> = Vec::new();
    let mut i: usize = 0;
    while i < items.len()
        invariant
            i <= items.len(),
            orders(out@) == orders(items@).take(i as int),
        decreases items.len() - i,
    {
        let ghost before = orders(out@);
        out.push(items[i].clone());
        proof {
            assert(orders(out@) =~= before.push(items@[i as int]@));
            assert(orders(items@).take(i + 1) =~= before.push(items@[i as int]@));
        }
        i += 1;
    }
    proof {
        assert(orders(items@).take(items@.len() as int) =~= orders(items@));
    }
    out
}

/// The description of one query: what is read or written, from which table,
/// filtered, grouped, ordered and cut how.
#[derive(Debug, PartialEq, Eq)]
pub struct QueryStatement {
    pub table: String,
    /// The columns that a `SELECT` reads; all of them when empty.
    pub select: Vec<String>,
    /// The columns that an `INSERT` or `UPDATE` writes.
    pub columns: Option<Vec<String>>,
    pub join: Vec<JoinQuery>,
    pub where_queries: Vec<WhereQuery>,
    pub group_by: Option<String>,
    pub having: Vec<WhereQuery>,
    pub order_by: Vec<OrderQuery>,
    /// The greatest number of rows to read.
    pub limit: Option<u64>,
    /// The page to read, counted from 1, of `limit` rows each.
    pub page: Option<u64>,
}

/// What a [`QueryStatement`] holds.
pub struct QueryStatementView {
    pub table: Seq<char>,
    pub select: Seq<Seq<char>>,
    pub columns: Option<Seq<Seq<char>>>,
    pub join: Seq<JoinQueryView>,
    pub where_queries: Seq<WhereQueryView>,
    pub group_by: Option<Seq<char>>,
    pub having: Seq<WhereQueryView>,
    pub order_by: Seq<OrderQueryView>,
    pub limit: Option<u64>,
    pub page: Option<u64>,
}

impl QueryStatementView {
    /// The description of a query on `table` with nothing else set.
    pub open spec fn new(table: Seq<char>) -> QueryStatementView {
        QueryStatementView {
            table,
            select: Seq::empty(),
            columns: None,
            join: Seq::empty(),
            where_queries: Seq::empty(),
            group_by: None,
            having: Seq::empty(),
            order_by: Seq::empty(),
            limit: None,
            page: None,
        }
    }
}

impl View for QueryStatement {
    type V = QueryStatementView;

    open spec fn view(&self) -> QueryStatementView {
        QueryStatementView {
            table: self.table@,
            select: strings(self.select@),
            columns: match self.columns {
                Some(columns) => Some(strings(columns@)),
                None => None,
            },
            join: joins(self.join@),
            where_queries: predicates(self.where_queries@),
            group_by: match self.group_by {
                Some(column) => Some(column@),
                None => None,
            },
            having: predicates(self.having@),
            order_by: orders(self.order_by@),
            limit: self.limit,
            page: self.page,
        }
    }
}

impl QueryStatement {
    /// A query on `table` with nothing else set.
    pub fn new(table: &str) -> (out: QueryStatement)
        ensures
            out@ == QueryStatementView::new(table@),
    {
        let out = QueryStatement {
            table: table.to_owned(),
            select: Vec::new(),
            columns: None,
            join: Vec::new(),
            where_queries: Vec::new(),
            group_by: None,
            having: Vec::new(),
            order_by: Vec::new(),
            limit: None,
            page: None,
        };
        proof {
            assert(out@.select =~= Seq::empty());
            assert(out@.join =~= Seq::empty());
            assert(out@.order_by =~= Seq::empty());
        }
        out
    }
}

impl Clone for QueryStatement {
    fn clone(&self) -> (out: QueryStatement)
        ensures
            out@ == self@,
    {
        QueryStatement {
            table: self.table.clone(),
            select: clone_strings(&self.select),
            columns: match &self.columns {
                Some(columns) => Some(clone_strings(columns)),
                None => None,
            },
            join: clone_joins(&self.join),
            where_queries: clone_predicates(&self.where_queries),
            group_by: match &self.group_by {
                Some(column) => Some(column.clone()),
                None => None,
            },
            having: clone_predicates(&self.having),
            order_by: clone_orders(&self.order_by),
            limit: self.limit,
            page: self.page,
        }
    }
}

/// A query together with the values bound to its placeholders, in the order
/// in which the placeholders appear in the rendered SQL.
#[derive(Debug, PartialEq, Eq)]
pub struct Statement {
    pub query: QueryStatement,
    pub arguments: Vec<Value>,
}

/// What a [`Statement`] holds.
pub struct StatementView {
    pub query: QueryStatementView,
    pub arguments: Seq<ValueView>,
}

impl View for Statement {
    type V = StatementView;

    open spec fn view(&self) -> StatementView {
        StatementView { query: self.query@, arguments: values(self.arguments@) }
    }
}

impl Clone for Statement {
    fn clone(&self) -> (out: Statement)
        ensures
            out@ == self@,
    {
        Statement { query: self.query.clone(), arguments: clone_values(&self.arguments) }
    }
}

impl Statement {
    /// An empty statement on `table`: no projection, no predicate, no bound
    /// value.
    pub fn new(table: &str) -> (out: Statement)
        ensures
            out@ == (StatementView {
                query: QueryStatementView::new(table@),
                arguments: Seq::empty(),
            }),
    {
        let out = Statement { query: QueryStatement::new(table), arguments: Vec::new() };
        proof {
            assert(out@.arguments =~= Seq::empty());
        }
        out
    }
}

impl QueryStatementView {
    /// The query that counts the rows of this one: the projection is the
    /// count alone, limit and page are cleared, and all else stays.
    pub open spec fn counting(self) -> QueryStatementView {
        QueryStatementView { select: seq!["COUNT(*) AS total"@], limit: None, page: None, ..self }
    }
}

impl QueryStatement {
    /// The query that counts the rows of this one.
    pub fn counting(&self) -> (out: QueryStatement)
        ensures
            out@ == self@.counting(),
    {
        let mut out = self.clone();
        let mut select: Vec<String> = Vec::new();
        select.push("COUNT(*) AS total".to_owned());
        proof {
            assert(strings(select@) =~= seq!["COUNT(*) AS total"@]);
        }
        out.select = select;
        out.limit = None;
        out.page = None;
        out
    }
}

/// One page of rows, with the number of rows that the query matches when it
/// is not cut into pages.
#[derive(Debug)]
pub struct Pagination<Entity> {
    pub total: u64,
    pub page: u64,
    pub per_page: u64,
    pub items: Vec<Entity>,
}

impl<Entity> Pagination<Entity> {
    /// Whether the page holds no more rows than fit on a page.
    pub open spec fn wf(&self) -> bool {
        self.items@.len() <= self.per_page
    }

    /// Puts a page together. Fails with [`Error::Execution`] when `items`
    /// holds more rows than fit on a page.
    pub fn new(total: u64, page: u64, per_page: u64, items: Vec<Entity>) -> (out: Result<
        Pagination<Entity>,
        Error,
    >)
        ensures
            match out {
                Ok(p) => {
                    &&& items@.len() <= per_page
                    &&& p.wf()
                    &&& p.total == total
                    &&& p.page == page
                    &&& p.per_page == per_page
                    &&& p.items == items
                },
                Err(e) => items@.len() > per_page && e == Error::Execution,
            },
    {
        if items.len() as u64 > per_page {
            return Err(Error::Execution);
        }
        Ok(Pagination { total, page, per_page, items })
    }
}

} // verus!
