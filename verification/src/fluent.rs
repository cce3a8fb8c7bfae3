//! The fluent API: each call changes one field of the statement, and each call
//! that adds a comparison binds its value in the same step.

use vstd::prelude::*;
use crate::error::Error;
use crate::query::{
    lemma_predicates, lemma_predicates_push, predicates, JoinQuery, JoinQueryView, JoinType, Order,
    OrderQuery, OrderQueryView, QueryPosition, QueryStatementView, Statement, StatementView,
    WhereQuery, WhereQueryView,
};
use crate::sql::{has_columns, insert_sql, lemma_placeholders_push, placeholders, select_sql};
use crate::sqlite::builder::Builder;
use crate::text::{slices, strings};
use crate::value::{values, Value, ValueView};

verus! {

/// The keyword that a predicate gets when it is appended to `ps` under
/// `position`: none when it is the first, else `position`.
pub open spec fn placed(ps: Seq<WhereQueryView>, position: QueryPosition) -> Option<
    QueryPosition,
> {
    if ps.len() == 0 {
        None
    } else {
        Some(position)
    }
}

/// `ps` with a comparison appended under `position`.
pub open spec fn with_condition(
    ps: Seq<WhereQueryView>,
    position: QueryPosition,
    column: Seq<char>,
    operator: Seq<char>,
) -> Seq<WhereQueryView> {
    ps.push(WhereQueryView::Condition { column, operator, position: placed(ps, position) })
}

/// `ps` with a group of predicates appended under `position`.
pub open spec fn with_group(
    ps: Seq<WhereQueryView>,
    position: QueryPosition,
    queries: Seq<WhereQueryView>,
) -> Seq<WhereQueryView> {
    ps.push(WhereQueryView::Group { position: placed(ps, position), queries })
}

fn push_condition(
    queries: &mut Vec<WhereQuery>,
    arguments: &mut Vec<Value>,
    position: QueryPosition,
    column: &str,
    operator: &str,
    val: Value,
)
    ensures
        predicates(final(queries)@) == with_condition(
            predicates(old(queries)@),
            position,
            column@,
            operator@,
        ),
        values(final(arguments)@) == values(old(arguments)@).push(val@),
{
    proof {
        lemma_predicates(queries@);
    }
    let place = if queries.len() == 0 {
        None
    } else {
        Some(position)
    };
    let query = WhereQuery::Condition {
        column: column.to_owned(),
        operator: operator.to_owned(),
        position: place,
    };
    proof {
        lemma_predicates_push(queries@, query);
    }
    queries.push(query);
    arguments.push(val);
    proof {
        assert(values(arguments@) =~= values(old(arguments)@).push(val@));
    }
}

fn push_group(
    queries: &mut Vec<WhereQuery>,
    arguments: &mut Vec<Value>,
    position: QueryPosition,
    group: WhereQueryGroup,
)
    ensures
        predicates(final(queries)@) == with_group(
            predicates(old(queries)@),
            position,
            group@.queries,
        ),
        values(final(arguments)@) == values(old(arguments)@) + group@.arguments,
{
    proof {
        lemma_predicates(queries@);
    }
    let place = if queries.len() == 0 {
        None
    } else {
        Some(position)
    };
    let WhereQueryGroup { queries: inner, arguments: mut bound } = group;
    let query = WhereQuery::Group { position: place, queries: inner };
    proof {
        lemma_predicates_push(queries@, query);
    }
    queries.push(query);
    arguments.append(&mut bound);
    proof {
        assert(values(arguments@) =~= values(old(arguments)@) + group@.arguments);
    }
}

/// A group of predicates under construction, with the values that its
/// comparisons bind, in order.
#[derive(Debug)]
pub struct WhereQueryGroup {
    queries: Vec<WhereQuery>,
    arguments: Vec<Value>,
}

/// What a [`WhereQueryGroup`] holds.
pub struct WhereQueryGroupView {
    pub queries: Seq<WhereQueryView>,
    pub arguments: Seq<ValueView>,
}

impl View for WhereQueryGroup {
    type V = WhereQueryGroupView;

    closed spec fn view(&self) -> WhereQueryGroupView {
        WhereQueryGroupView {
            queries: predicates(self.queries@),
            arguments: values(self.arguments@),
        }
    }
}

impl WhereQueryGroupView {
    /// The group without a predicate.
    pub open spec fn empty() -> WhereQueryGroupView {
        WhereQueryGroupView { queries: Seq::empty(), arguments: Seq::empty() }
    }

    /// This group with a comparison appended under `position` and its value
    /// bound.
    pub open spec fn with_condition(
        self,
        position: QueryPosition,
        column: Seq<char>,
        operator: Seq<char>,
        val: ValueView,
    ) -> WhereQueryGroupView {
        WhereQueryGroupView {
            queries: with_condition(self.queries, position, column, operator),
            arguments: self.arguments.push(val),
        }
    }

    /// This group with `inner` appended as a nested group under `position`,
    /// and the values of `inner` bound after its own.
    pub open spec fn with_group(
        self,
        position: QueryPosition,
        inner: WhereQueryGroupView,
    ) -> WhereQueryGroupView {
        WhereQueryGroupView {
            queries: with_group(self.queries, position, inner.queries),
            arguments: self.arguments + inner.arguments,
        }
    }
}

impl WhereQueryGroup {
    /// A group without a predicate.
    pub fn new() -> (out: WhereQueryGroup)
        ensures
            out@ == WhereQueryGroupView::empty(),
    {
        let out = WhereQueryGroup { queries: Vec::new(), arguments: Vec::new() };
        proof {
            assert(out@.arguments =~= Seq::empty());
        }
        out
    }

    /// Appends the comparison `column operator ?` and binds `val`. The first
    /// predicate of the group has no keyword; after it, this is `and_where`.
    pub fn where_(self, column: &str, operator: &str, val: Value) -> (out: WhereQueryGroup)
        ensures
            out@ == self@.with_condition(QueryPosition::AND, column@, operator@, val@),
    {
        self.and_where(column, operator, val)
    }

    /// Appends the comparison `column operator ?` under `AND` and binds
    /// `val`. The first predicate of the group has no keyword.
    pub fn and_where(self, column: &str, operator: &str, val: Value) -> (out: WhereQueryGroup)
        ensures
            out@ == self@.with_condition(QueryPosition::AND, column@, operator@, val@),
    {
        let mut out = self;
        push_condition(
            &mut out.queries,
            &mut out.arguments,
            QueryPosition::AND,
            column,
            operator,
            val,
        );
        out
    }

    /// Appends the comparison `column operator ?` under `OR` and binds `val`.
    /// The first predicate of the group has no keyword.
    pub fn or_where(self, column: &str, operator: &str, val: Value) -> (out: WhereQueryGroup)
        ensures
            out@ == self@.with_condition(QueryPosition::OR, column@, operator@, val@),
    {
        let mut out = self;
        push_condition(
            &mut out.queries,
            &mut out.arguments,
            QueryPosition::OR,
            column,
            operator,
            val,
        );
        out
    }

    /// Appends `inner` as a nested group under `position` and binds its
    /// values.
    pub fn group(self, position: QueryPosition, inner: WhereQueryGroup) -> (out: WhereQueryGroup)
        ensures
            out@ == self@.with_group(position, inner@),
    {
        let mut out = self;
        push_group(&mut out.queries, &mut out.arguments, position, inner);
        out
    }
}

impl StatementView {
    /// This statement with a comparison appended under `position` and its
    /// value bound.
    pub open spec fn with_condition(
        self,
        position: QueryPosition,
        column: Seq<char>,
        operator: Seq<char>,
        val: ValueView,
    ) -> StatementView {
        StatementView {
            query: QueryStatementView {
                where_queries: with_condition(
                    self.query.where_queries,
                    position,
                    column,
                    operator,
                ),
                ..self.query
            },
            arguments: self.arguments.push(val),
        }
    }

    /// This statement with `group` appended under `position`, and the values
    /// of `group` bound after its own.
    pub open spec fn with_group(
        self,
        position: QueryPosition,
        group: WhereQueryGroupView,
    ) -> StatementView {
        StatementView {
            query: QueryStatementView {
                where_queries: with_group(self.query.where_queries, position, group.queries),
                ..self.query
            },
            arguments: self.arguments + group.arguments,
        }
    }

    /// This statement with one more join.
    pub open spec fn with_join(self, join: JoinQueryView) -> StatementView {
        StatementView {
            query: QueryStatementView { join: self.query.join.push(join), ..self.query },
            ..self
        }
    }
}

/// A query under construction.
#[derive(Debug)]
pub struct Query {
    statement: Statement,
}

impl View for Query {
    type V = StatementView;

    closed spec fn view(&self) -> StatementView {
        self.statement@
    }
}

impl Query {
    /// Opens a query on `table`, with an empty statement.
    pub fn new(table: &str) -> (out: Query)
        ensures
            out@ == (StatementView {
                query: QueryStatementView::new(table@),
                arguments: Seq::empty(),
            }),
    {
        Query { statement: Statement::new(table) }
    }

    /// The statement as it stands.
    pub fn statement(&self) -> (out: &Statement)
        ensures
            out@ == self@,
    {
        &self.statement
    }

    /// Hands the statement over.
    pub fn into_statement(self) -> (out: Statement)
        ensures
            out@ == self@,
    {
        self.statement
    }

    /// Sets the table, in place of the one set before.
    pub fn table(&mut self, name: &str) -> (ret: &mut Self)
        ensures
            ret@ == (StatementView {
                query: QueryStatementView { table: name@, ..old(self)@.query },
                ..old(self)@
            }),
            *final(self) == *final(ret),
    {
        self.statement.query.table = name.to_owned();
        self
    }

    /// Appends `columns` to the projection, in order.
    pub fn select(&mut self, columns: Vec<&str>) -> (ret: &mut Self)
        ensures
            ret@ == (StatementView {
                query: QueryStatementView {
                    select: old(self)@.query.select + slices(columns@),
                    ..old(self)@.query
                },
                ..old(self)@
            }),
            *final(self) == *final(ret),
    {
        let mut i: usize = 0;
        while i < columns.len()
            invariant
                i <= columns.len(),
                self@ == (StatementView {
                    query: QueryStatementView {
                        select: old(self)@.query.select + slices(columns@).take(i as int),
                        ..old(self)@.query
                    },
                    ..old(self)@
                }),
            decreases columns.len() - i,
        {
            let ghost before = strings(self.statement.query.select@);
            self.statement.query.select.push(columns[i].to_owned());
            proof {
                assert(strings(self.statement.query.select@) =~= before.push(columns@[i as int]@));
                assert(slices(columns@).take(i + 1) =~= slices(columns@).take(i as int).push(
                    columns@[i as int]@,
                ));
                assert(self@.query.select =~= old(self)@.query.select + slices(columns@).take(
                    i + 1,
                ));
            }
            i += 1;
        }
        proof {
            assert(slices(columns@).take(columns@.len() as int) =~= slices(columns@));
        }
        self
    }

    /// Appends the comparison `column operator ?` and binds `val`. The first
    /// predicate has no keyword; after it, this is `and_where`.
    pub fn where_(&mut self, column: &str, operator: &str, val: Value) -> (ret: &mut Self)
        ensures
            ret@ == old(self)@.with_condition(QueryPosition::AND, column@, operator@, val@),
            *final(self) == *final(ret),
    {
        if self.statement.query.where_queries.len() != 0 {
            return self.and_where(column, operator, val);
        }
        push_condition(
            &mut self.statement.query.where_queries,
            &mut self.statement.arguments,
            QueryPosition::AND,
            column,
            operator,
            val,
        );
        self
    }

    /// Appends the comparison `column operator ?` under `AND` and binds
    /// `val`. On a statement without a predicate this is `where_`.
    pub fn and_where(&mut self, column: &str, operator: &str, val: Value) -> (ret: &mut Self)
        ensures
            ret@ == old(self)@.with_condition(QueryPosition::AND, column@, operator@, val@),
            *final(self) == *final(ret),
    {
        push_condition(
            &mut self.statement.query.where_queries,
            &mut self.statement.arguments,
            QueryPosition::AND,
            column,
            operator,
            val,
        );
        self
    }

    /// Appends the comparison `column operator ?` under `OR` and binds `val`.
    /// On a statement without a predicate this is `where_`.
    pub fn or_where(&mut self, column: &str, operator: &str, val: Value) -> (ret: &mut Self)
        ensures
            ret@ == old(self)@.with_condition(QueryPosition::OR, column@, operator@, val@),
            *final(self) == *final(ret),
    {
        push_condition(
            &mut self.statement.query.where_queries,
            &mut self.statement.arguments,
            QueryPosition::OR,
            column,
            operator,
            val,
        );
        self
    }

    /// Appends `group` as a parenthesised group under `position` and binds
    /// its values after those bound so far.
    pub fn group(&mut self, position: QueryPosition, group: WhereQueryGroup) -> (ret: &mut Self)
        ensures
            ret@ == old(self)@.with_group(position, group@),
            *final(self) == *final(ret),
    {
        push_group(
            &mut self.statement.query.where_queries,
            &mut self.statement.arguments,
            position,
            group,
        );
        self
    }

    /// Builds a group by handing an empty one to `callback`, then appends
    /// what comes back as `group` does. The first predicate has no keyword;
    /// after it, this is `and_where_group`.
    pub fn where_group<F: FnOnce(WhereQueryGroup) -> WhereQueryGroup>(
        &mut self,
        callback: F,
    ) -> (ret: &mut Self)
        requires
            forall|start: WhereQueryGroup|
                start@ == WhereQueryGroupView::empty() ==> callback.requires((start,)),
        ensures
            exists|start: WhereQueryGroup, group: WhereQueryGroup|
                start@ == WhereQueryGroupView::empty() && #[trigger] callback.ensures(
                    (start,),
                    group,
                ) && ret@ == old(self)@.with_group(QueryPosition::AND, group@),
            *final(self) == *final(ret),
    {
        self.and_where_group(callback)
    }

    /// Builds a group by handing an empty one to `callback`, then appends
    /// what comes back under `AND`, as `group` does.
    pub fn and_where_group<F: FnOnce(WhereQueryGroup) -> WhereQueryGroup>(
        &mut self,
        callback: F,
    ) -> (ret: &mut Self)
        requires
            forall|start: WhereQueryGroup|
                start@ == WhereQueryGroupView::empty() ==> callback.requires((start,)),
        ensures
            exists|start: WhereQueryGroup, group: WhereQueryGroup|
                start@ == WhereQueryGroupView::empty() && #[trigger] callback.ensures(
                    (start,),
                    group,
                ) && ret@ == old(self)@.with_group(QueryPosition::AND, group@),
            *final(self) == *final(ret),
    {
        let start = WhereQueryGroup::new();
        let group = callback(start);
        self.group(QueryPosition::AND, group)
    }

    /// Builds a group by handing an empty one to `callback`, then appends
    /// what comes back under `OR`, as `group` does.
    pub fn or_where_group<F: FnOnce(WhereQueryGroup) -> WhereQueryGroup>(
        &mut self,
        callback: F,
    ) -> (ret: &mut Self)
        requires
            forall|start: WhereQueryGroup|
                start@ == WhereQueryGroupView::empty() ==> callback.requires((start,)),
        ensures
            exists|start: WhereQueryGroup, group: WhereQueryGroup|
                start@ == WhereQueryGroupView::empty() && #[trigger] callback.ensures(
                    (start,),
                    group,
                ) && ret@ == old(self)@.with_group(QueryPosition::OR, group@),
            *final(self) == *final(ret),
    {
        let start = WhereQueryGroup::new();
        let group = callback(start);
        self.group(QueryPosition::OR, group)
    }

    /// Appends an `ORDER BY` term.
    pub fn order_by(&mut self, column: &str, order: Order) -> (ret: &mut Self)
        ensures
            ret@ == (StatementView {
                query: QueryStatementView {
                    order_by: old(self)@.query.order_by.push(
                        OrderQueryView { column: column@, order },
                    ),
                    ..old(self)@.query
                },
                ..old(self)@
            }),
            *final(self) == *final(ret),
    {
        let term = OrderQuery { column: column.to_owned(), order };
        self.statement.query.order_by.push(term);
        proof {
            assert(self@.query.order_by =~= old(self)@.query.order_by.push(term@));
        }
        self
    }

    /// Appends a left join of `table` on `column = column_table`.
    pub fn join(&mut self, table: &str, column: &str, column_table: &str) -> (ret: &mut Self)
        ensures
            ret@ == old(self)@.with_join(
                JoinQueryView {
                    table: table@,
                    column: column@,
                    operator: "="@,
                    column_table: column_table@,
                    join_type: JoinType::LeftJoin,
                },
            ),
            *final(self) == *final(ret),
    {
        self.join_with(JoinType::LeftJoin, table, column, "=", column_table)
    }

    /// Appends a join of kind `join_type` of `table` on
    /// `column operator column_table`.
    pub fn join_with(
        &mut self,
        join_type: JoinType,
        table: &str,
        column: &str,
        operator: &str,
        column_table: &str,
    ) -> (ret: &mut Self)
        ensures
            ret@ == old(self)@.with_join(
                JoinQueryView {
                    table: table@,
                    column: column@,
                    operator: operator@,
                    column_table: column_table@,
                    join_type,
                },
            ),
            *final(self) == *final(ret),
    {
        let join = JoinQuery {
            table: table.to_owned(),
            column: column.to_owned(),
            operator: operator.to_owned(),
            column_table: column_table.to_owned(),
            join_type,
        };
        self.statement.query.join.push(join);
        proof {
            assert(self@.query.join =~= old(self)@.query.join.push(join@));
        }
        self
    }

    /// Sets the grouping column, in place of the one set before.
    pub fn group_by(&mut self, column: &str) -> (ret: &mut Self)
        ensures
            ret@ == (StatementView {
                query: QueryStatementView { group_by: Some(column@), ..old(self)@.query },
                ..old(self)@
            }),
            *final(self) == *final(ret),
    {
        self.statement.query.group_by = Some(column.to_owned());
        self
    }

    /// Sets the limit, in place of the one set before.
    pub fn limit(&mut self, limit: u64) -> (ret: &mut Self)
        ensures
            ret@ == (StatementView {
                query: QueryStatementView { limit: Some(limit), ..old(self)@.query },
                ..old(self)@
            }),
            *final(self) == *final(ret),
    {
        self.statement.query.limit = Some(limit);
        self
    }

    /// Sets the page size and the page, which counts from 1.
    pub fn paginate(&mut self, limit: u64, page: u64) -> (ret: &mut Self)
        ensures
            ret@ == (StatementView {
                query: QueryStatementView {
                    limit: Some(limit),
                    page: Some(page),
                    ..old(self)@.query
                },
                ..old(self)@
            }),
            *final(self) == *final(ret),
    {
        self.statement.query.limit = Some(limit);
        self.statement.query.page = Some(page);
        self
    }

    /// Binds `value` after the values bound so far.
    pub fn bind(&mut self, value: Value) -> (ret: &mut Self)
        ensures
            ret@ == (StatementView {
                arguments: old(self)@.arguments.push(value@),
                ..old(self)@
            }),
            *final(self) == *final(ret),
    {
        self.statement.arguments.push(value);
        proof {
            assert(self@.arguments =~= old(self)@.arguments.push(value@));
        }
        self
    }

    /// Names the columns that an `INSERT` writes, in place of those named
    /// before, and lends the statement out for binding their values.
    pub fn insert_as(&mut self, columns: Vec<&str>) -> (ret: InsertAs<'_>)
        ensures
            ret@ == (StatementView {
                query: QueryStatementView {
                    columns: Some(slices(columns@)),
                    ..old(self)@.query
                },
                ..old(self)@
            }),
            final(self)@ == final(ret.statement)@,
    {
        let mut named: Vec<String> = Vec::new();
        let mut i: usize = 0;
        while i < columns.len()
            invariant
                i <= columns.len(),
                strings(named@) == slices(columns@).take(i as int),
            decreases columns.len() - i,
        {
            let ghost before = strings(named@);
            named.push(columns[i].to_owned());
            proof {
                assert(strings(named@) =~= before.push(columns@[i as int]@));
                assert(slices(columns@).take(i + 1) =~= before.push(columns@[i as int]@));
            }
            i += 1;
        }
        proof {
            assert(slices(columns@).take(columns@.len() as int) =~= slices(columns@));
        }
        self.statement.query.columns = Some(named);
        InsertAs { statement: &mut self.statement }
    }

    /// The `SELECT` statement of this query, without running it.
    pub fn to_sql(&self) -> (out: Result<String, Error>)
        ensures
            out matches Ok(sql) && sql@ == select_sql(self@.query),
    {
        Builder::new(&self.statement.query).query()
    }
}

/// An `INSERT` under construction, on a statement lent by a [`Query`].
pub struct InsertAs<'q> {
    pub statement: &'q mut Statement,
}

impl<'q> View for InsertAs<'q> {
    type V = StatementView;

    open spec fn view(&self) -> StatementView {
        (*self.statement)@
    }
}

impl<'q> InsertAs<'q> {
    /// Binds `value` after the values bound so far.
    pub fn bind(&mut self, value: Value) -> (ret: &mut Self)
        ensures
            ret@ == (StatementView {
                arguments: old(self)@.arguments.push(value@),
                ..old(self)@
            }),
            *final(ret.statement) == *final(old(self).statement),
            *final(self) == *final(ret),
    {
        self.statement.arguments.push(value);
        proof {
            assert(self@.arguments =~= old(self)@.arguments.push(value@));
        }
        self
    }

    /// The `INSERT` statement, without running it. Fails with
    /// [`Error::Render`] when no column to write is named.
    pub fn to_sql(&self) -> (out: Result<String, Error>)
        ensures
            match out {
                Ok(sql) => has_columns(self@.query) && sql@ == insert_sql(self@.query),
                Err(e) => !has_columns(self@.query) && e == Error::Render,
            },
    {
        Builder::new(&self.statement.query).insert()
    }
}

/// The method by which a comparison is added.
pub enum Method {
    Where,
    AndWhere,
    OrWhere,
}

impl Method {
    /// The keyword under which the method appends: `OR` for `or_where`,
    /// `AND` for the other two.
    pub open spec fn keyword(self) -> QueryPosition {
        match self {
            Method::Where => QueryPosition::AND,
            Method::AndWhere => QueryPosition::AND,
            Method::OrWhere => QueryPosition::OR,
        }
    }
}

/// One call that adds a comparison.
pub struct Call {
    pub method: Method,
    pub column: Seq<char>,
    pub operator: Seq<char>,
}

/// The predicate list that `calls` build, one after another, on a statement
/// without a predicate.
pub open spec fn built(calls: Seq<Call>) -> Seq<WhereQueryView>
    decreases calls.len(),
{
    if calls.len() == 0 {
        Seq::empty()
    } else {
        with_condition(
            built(calls.drop_last()),
            calls.last().method.keyword(),
            calls.last().column,
            calls.last().operator,
        )
    }
}

/// Whether the groups inside `p`, and `p` itself if it is one, are well
/// positioned.
pub open spec fn well_grouped(p: WhereQueryView) -> bool
    decreases p,
{
    match p {
        WhereQueryView::Condition { .. } => true,
        WhereQueryView::Group { queries, .. } => well_positioned(queries),
    }
}

/// Whether the first predicate has no keyword and every other one has one,
/// in `ps` and in every group inside it.
pub open spec fn well_positioned(ps: Seq<WhereQueryView>) -> bool
    decreases ps,
{
    if ps.len() == 0 {
        true
    } else {
        &&& well_positioned(ps.drop_last())
        &&& ps.last().position() is None <==> ps.len() == 1
        &&& well_grouped(ps.last())
    }
}

/// In a well positioned list, the first predicate is the one without a
/// keyword, and every group is well positioned.
pub proof fn law_keywords(ps: Seq<WhereQueryView>)
    requires
        well_positioned(ps),
    ensures
        forall|i: int| 0 <= i < ps.len() ==> ((#[trigger] ps[i]).position() is None <==> i == 0),
        forall|i: int| 0 <= i < ps.len() ==> well_grouped(#[trigger] ps[i]),
    decreases ps.len(),
{
    if ps.len() > 0 {
        law_keywords(ps.drop_last());
        assert forall|i: int| 0 <= i < ps.len() implies ((#[trigger] ps[i]).position() is None
            <==> i == 0) && well_grouped(ps[i]) by {
            if i < ps.len() - 1 {
                assert(ps.drop_last()[i] == ps[i]);
            }
        }
    }
}

/// Whatever calls build a predicate list, its first predicate has no
/// keyword, and each later one has the keyword of the method that added it:
/// `AND` for `where_` and `and_where`, `OR` for `or_where`.
pub proof fn law_positions(calls: Seq<Call>)
    ensures
        built(calls).len() == calls.len(),
        forall|i: int|
            0 <= i < calls.len() ==> #[trigger] built(calls)[i] == (WhereQueryView::Condition {
                column: calls[i].column,
                operator: calls[i].operator,
                position: if i == 0 {
                    None
                } else {
                    Some(calls[i].method.keyword())
                },
            }),
        well_positioned(built(calls)),
    decreases calls.len(),
{
    if calls.len() > 0 {
        law_positions(calls.drop_last());
        assert(built(calls).drop_last() =~= built(calls.drop_last()));
        assert(well_grouped(built(calls).last()));
    }
}

/// The empty list is well positioned, and appending to a well positioned
/// list, by a comparison or by a well positioned group, gives a well
/// positioned list.
pub proof fn law_appending_keeps_positions(
    ps: Seq<WhereQueryView>,
    position: QueryPosition,
    column: Seq<char>,
    operator: Seq<char>,
    queries: Seq<WhereQueryView>,
)
    requires
        well_positioned(ps),
    ensures
        well_positioned(Seq::<WhereQueryView>::empty()),
        well_positioned(with_condition(ps, position, column, operator)),
        well_positioned(queries) ==> well_positioned(with_group(ps, position, queries)),
{
    let one = with_condition(ps, position, column, operator);
    assert(one.drop_last() =~= ps);
    assert(well_grouped(one.last()));
    let other = with_group(ps, position, queries);
    assert(other.drop_last() =~= ps);
    assert(well_positioned(queries) ==> well_grouped(other.last()));
}

/// The predicate list depends on the methods called only through the
/// keywords of the calls after the first: `where_` first and then the other
/// two, or any of the three first, or `where_` in place of `and_where` later
/// on, build the same list.
pub proof fn law_first_method_is_free(a: Seq<Call>, b: Seq<Call>)
    requires
        a.len() == b.len(),
        forall|i: int|
            0 <= i < a.len() ==> a[i].column == b[i].column && a[i].operator == b[i].operator,
        forall|i: int| 1 <= i < a.len() ==> a[i].method.keyword() == b[i].method.keyword(),
    ensures
        built(a) == built(b),
{
    law_positions(a);
    law_positions(b);
    assert(built(a) =~= built(b));
}

impl WhereQueryGroupView {
    /// Whether the group binds one value for each placeholder of its text.
    pub open spec fn aligned(self) -> bool {
        self.arguments.len() == placeholders(self.queries)
    }
}

impl StatementView {
    /// Whether the statement binds one value for each placeholder of its
    /// `SELECT` text.
    pub open spec fn aligned(self) -> bool {
        self.arguments.len() == placeholders(self.query.where_queries) + placeholders(
            self.query.having,
        )
    }
}

/// A statement without a predicate and without a bound value is aligned, and
/// adding a comparison with its value, or an aligned group with its values,
/// keeps a statement aligned: the number of bound values stays the number
/// of placeholders.
pub proof fn law_alignment(
    table: Seq<char>,
    s: StatementView,
    position: QueryPosition,
    column: Seq<char>,
    operator: Seq<char>,
    val: ValueView,
    group: WhereQueryGroupView,
)
    ensures
        (StatementView {
            query: QueryStatementView::new(table),
            arguments: Seq::empty(),
        }).aligned(),
        s.aligned() ==> s.with_condition(position, column, operator, val).aligned(),
        s.aligned() && group.aligned() ==> s.with_group(position, group).aligned(),
{
    lemma_placeholders_push(
        s.query.where_queries,
        WhereQueryView::Condition {
            column,
            operator,
            position: placed(s.query.where_queries, position),
        },
    );
    lemma_placeholders_push(
        s.query.where_queries,
        WhereQueryView::Group {
            position: placed(s.query.where_queries, position),
            queries: group.queries,
        },
    );
}

/// A group without a predicate is aligned, and adding a comparison with its
/// value, or an aligned group with its values, keeps a group aligned.
pub proof fn law_group_alignment(
    g: WhereQueryGroupView,
    position: QueryPosition,
    column: Seq<char>,
    operator: Seq<char>,
    val: ValueView,
    inner: WhereQueryGroupView,
)
    ensures
        WhereQueryGroupView::empty().aligned(),
        g.aligned() ==> g.with_condition(position, column, operator, val).aligned(),
        g.aligned() && inner.aligned() ==> g.with_group(position, inner).aligned(),
{
    lemma_placeholders_push(
        g.queries,
        WhereQueryView::Condition { column, operator, position: placed(g.queries, position) },
    );
    lemma_placeholders_push(
        g.queries,
        WhereQueryView::Group { position: placed(g.queries, position), queries: inner.queries },
    );
}

} // verus!
