//! The SQLite backend: rendering, and what the executor decides between its
//! calls to the database.

pub mod builder;

use vstd::prelude::*;
use sqlx::sqlite::SqliteArguments;
use sqlx::Arguments;
use crate::error::Error;
use crate::query::{
    lemma_predicates_push, Pagination, QueryStatementView, Statement, StatementView, WhereQuery,
    WhereQueryView,
};
use crate::sql::select_sql;
use crate::sqlite::builder::Builder;
use crate::value::{values, Value, ValueView};

verus! {

/// `sqlx::sqlite::SqliteArguments`, the driver's list of values to bind. What
/// it holds is seen through [`stored`] only.
#[verifier::external_type_specification]
#[verifier::external_body]
pub struct ExSqliteArguments<'q>(SqliteArguments<'q>);

/// One value as SQLite stores it for binding.
pub enum Stored {
    Null,
    Integer(int),
    Text(Seq<char>),
    Blob(Seq<u8>),
}

/// The values that an argument list of the driver holds, in the order in
/// which it binds them to the placeholders.
pub uninterp spec fn stored(args: SqliteArguments<'static>) -> Seq<Stored>;

/// How a value of the library is stored: a boolean as the integer 1 or 0.
pub open spec fn stored_of(v: ValueView) -> Stored {
    match v {
        ValueView::Null => Stored::Null,
        ValueView::Bool(b) => Stored::Integer(
            if b {
                1
            } else {
                0
            },
        ),
        ValueView::Int(i) => Stored::Integer(i as int),
        ValueView::Text(s) => Stored::Text(s),
        ValueView::Blob(b) => Stored::Blob(b),
    }
}

/// `SqliteArguments::default`: an argument list that holds nothing.
#[verifier::external_body]
fn no_arguments() -> (args: SqliteArguments<'static>)
    ensures
        stored(args) == Seq::<Stored>::empty(),
{
    SqliteArguments::default()
}

/// `Arguments::add` with an absent value: the list gets a `NULL` at its end.
#[verifier::external_body]
fn add_null(args: &mut SqliteArguments<'static>)
    ensures
        stored(*final(args)) == stored(*old(args)).push(Stored::Null),
{
    args.add(None::<i64>).unwrap()
}

/// `Arguments::add` with a `bool`: the list gets the integer 1 for `true`, 0
/// for `false`, at its end.
#[verifier::external_body]
fn add_bool(args: &mut SqliteArguments<'static>, value: bool)
    ensures
        stored(*final(args)) == stored(*old(args)).push(
            Stored::Integer(
                if value {
                    1
                } else {
                    0
                },
            ),
        ),
{
    args.add(value).unwrap()
}

/// `Arguments::add` with an `i64`: the list gets that integer at its end.
#[verifier::external_body]
fn add_int(args: &mut SqliteArguments<'static>, value: i64)
    ensures
        stored(*final(args)) == stored(*old(args)).push(Stored::Integer(value as int)),
{
    args.add(value).unwrap()
}

/// `Arguments::add` with a `String`: the list gets that text at its end.
#[verifier::external_body]
fn add_text(args: &mut SqliteArguments<'static>, value: String)
    ensures
        stored(*final(args)) == stored(*old(args)).push(Stored::Text(value@)),
{
    args.add(value).unwrap()
}

/// `Arguments::add` with a `Vec<u8>`: the list gets those bytes at its end.
#[verifier::external_body]
fn add_blob(args: &mut SqliteArguments<'static>, value: Vec<u8>)
    ensures
        stored(*final(args)) == stored(*old(args)).push(Stored::Blob(value@)),
{
    args.add(value).unwrap()
}

/// The driver's argument list for `items`: each value is bound at the
/// position at which it stands in `items`.
pub fn arguments(items: &Vec<Value>) -> (out: SqliteArguments<'static>)
    ensures
        stored(out) == values(items@).map_values(|v: ValueView| stored_of(v)),
{
    let ghost all = values(items@).map_values(|v: ValueView| stored_of(v));
    let mut out = no_arguments();
    let mut i: usize = 0;
    while i < items.len()
        invariant
            i <= items.len(),
            all == values(items@).map_values(|v: ValueView| stored_of(v)),
            stored(out) == all.take(i as int),
        decreases items.len() - i,
    {
        match items[i].clone() {
            Value::Null => add_null(&mut out),
            Value::Bool(b) => add_bool(&mut out, b),
            Value::Int(n) => add_int(&mut out, n),
            Value::Text(s) => add_text(&mut out, s),
            Value::Blob(b) => add_blob(&mut out, b),
        }
        proof {
            assert(all.take(i + 1) =~= all.take(i as int).push(all[i as int]));
        }
        i += 1;
    }
    proof {
        assert(all.take(items@.len() as int) =~= all);
    }
    out
}

/// The `SELECT` statement of `statement`.
pub fn to_sql(statement: &Statement) -> (out: Result<String, Error>)
    ensures
        out matches Ok(sql) && sql@ == select_sql(statement@.query),
{
    Builder::new(&statement.query).query()
}

/// The statement that reads back the row that an `INSERT` into `table` made,
/// found by the row id that SQLite gave it.
pub fn inserted(table: &str, rowid: i64) -> (out: Statement)
    ensures
        out@ == (StatementView {
            query: QueryStatementView {
                where_queries: seq![
                    WhereQueryView::Condition {
                        column: "rowid"@,
                        operator: "="@,
                        position: None,
                    },
                ],
                ..QueryStatementView::new(table@)
            },
            arguments: seq![ValueView::Int(rowid)],
        }),
{
    let mut out = Statement::new(table);
    let query = WhereQuery::Condition {
        column: "rowid".to_owned(),
        operator: "=".to_owned(),
        position: None,
    };
    proof {
        lemma_predicates_push(out.query.where_queries@, query);
    }
    out.query.where_queries.push(query);
    out.arguments.push(Value::Int(rowid));
    proof {
        assert(out@.query.where_queries =~= seq![query@]);
        assert(out@.arguments =~= seq![ValueView::Int(rowid)]);
    }
    out
}

/// The two queries of one paginated read, and the page they are for.
#[derive(Debug)]
pub struct Paginate {
    /// Counts the rows that the statement matches when it is not cut.
    pub count_sql: String,
    /// Reads the rows of the page.
    pub items_sql: String,
    pub page: u64,
    pub per_page: u64,
}

/// Plans a paginated read of `statement`: the count query differs from the
/// item query in projection, limit and page only. Fails with
/// [`Error::Contract`] when the limit or the page is not set.
pub fn paginate(statement: &Statement) -> (out: Result<Paginate, Error>)
    ensures
        match out {
            Ok(plan) => {
                &&& statement@.query.limit == Some(plan.per_page)
                &&& statement@.query.page == Some(plan.page)
                &&& plan.count_sql@ == select_sql(statement@.query.counting())
                &&& plan.items_sql@ == select_sql(statement@.query)
            },
            Err(e) => {
                &&& statement@.query.limit is None || statement@.query.page is None
                &&& e == Error::Contract
            },
        },
{
    let per_page = match statement.query.limit {
        Some(limit) => limit,
        None => { return Err(Error::Contract); },
    };
    let page = match statement.query.page {
        Some(page) => page,
        None => { return Err(Error::Contract); },
    };
    let counting = statement.query.counting();
    let count_sql = Builder::new(&counting).select_text();
    let items_sql = Builder::new(&statement.query).select_text();
    Ok(Paginate { count_sql, items_sql, page, per_page })
}

impl Paginate {
    /// The page, once the backend has answered both queries with `total` and
    /// `items`. Fails with [`Error::Execution`] when `items` holds more rows
    /// than fit on a page.
    pub fn finish<Entity>(&self, total: u64, items: Vec<Entity>) -> (out: Result<
        Pagination<Entity>,
        Error,
    >)
        ensures
            match out {
                Ok(p) => {
                    &&& items@.len() <= self.per_page
                    &&& p.wf()
                    &&& p.total == total
                    &&& p.page == self.page
                    &&& p.per_page == self.per_page
                    &&& p.items == items
                },
                Err(e) => items@.len() > self.per_page && e == Error::Execution,
            },
    {
        Pagination::new(total, self.page, self.per_page, items)
    }
}

} // verus!
