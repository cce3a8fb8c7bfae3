//! The SQL text of a statement, as mathematics: what each clause reads like,
//! and how many placeholders it holds.

use vstd::prelude::*;
use crate::query::{
    JoinQueryView, JoinType, Order, OrderQueryView, QueryPosition, QueryStatement,
    QueryStatementView, WhereQueryView,
};
use crate::text::{decimal, joined, lowercase, repeated};

verus! {

/// The projection: `*` for an empty select list, else the columns in order,
/// separated by `, `.
pub open spec fn projection(select: Seq<Seq<char>>) -> Seq<char> {
    if select.len() == 0 {
        "*"@
    } else {
        joined(select, ", "@)
    }
}

/// The keyword of a join kind.
pub open spec fn join_keyword(join_type: JoinType) -> Seq<char> {
    match join_type {
        JoinType::InnerJoin => "INNER JOIN"@,
        JoinType::LeftJoin => "LEFT JOIN"@,
        JoinType::RightJoin => "RIGHT JOIN"@,
        JoinType::FullOuterJoin => "FULL OUTER JOIN"@,
        JoinType::CrossJoin => "CROSS JOIN"@,
    }
}

/// One join: `<KIND> JOIN <table> ON <column> <operator> <column_table>`.
pub open spec fn join_clause(join: JoinQueryView) -> Seq<char> {
    join_keyword(join.join_type) + " "@ + join.table + " ON "@ + join.column + " "@
        + join.operator + " "@ + join.column_table
}

/// The joins in order, separated by single spaces.
pub open spec fn join_clauses(joins: Seq<JoinQueryView>) -> Seq<char> {
    joined(joins.map_values(|j: JoinQueryView| join_clause(j)), " "@)
}

/// The keyword of a position.
pub open spec fn position_keyword(position: QueryPosition) -> Seq<char> {
    match position {
        QueryPosition::AND => "AND"@,
        QueryPosition::OR => "OR"@,
    }
}

/// The text of a comparison, given the lower-cased operator: when that is
/// `like`, the placeholder is wrapped in wildcards, so that the bound value
/// itself stays as it was given; else `<column> <operator> ?`.
pub open spec fn condition_for(
    column: Seq<char>,
    operator: Seq<char>,
    lowered: Seq<char>,
) -> Seq<char> {
    if lowered == "like"@ {
        column + " LIKE '%' || ? || '%'"@
    } else {
        column + " "@ + operator + " ?"@
    }
}

/// A comparison of `column` with a placeholder; `operator` counts as `LIKE`
/// in any letter case.
pub open spec fn condition(column: Seq<char>, operator: Seq<char>) -> Seq<char> {
    condition_for(column, operator, lowercase(operator))
}

/// One predicate: its keyword, if it has one, then the comparison, or the
/// group in parentheses.
pub open spec fn predicate(p: WhereQueryView) -> Seq<char>
    decreases p,
{
    let body = match p {
        WhereQueryView::Condition { column, operator, .. } => condition(column, operator),
        WhereQueryView::Group { queries, .. } => "("@ + predicate_list(queries) + ")"@,
    };
    match p.position() {
        Some(position) => position_keyword(position) + " "@ + body,
        None => body,
    }
}

/// The predicates in order, separated by single spaces.
pub open spec fn predicate_list(ps: Seq<WhereQueryView>) -> Seq<char>
    decreases ps,
{
    if ps.len() == 0 {
        Seq::empty()
    } else if ps.len() == 1 {
        predicate(ps[0])
    } else {
        predicate_list(ps.drop_last()) + " "@ + predicate(ps.last())
    }
}

/// Appending one predicate to a list appends a space and its text, unless it
/// is the first.
pub proof fn lemma_predicate_list_push(ps: Seq<WhereQueryView>, p: WhereQueryView)
    ensures
        predicate_list(ps.push(p)) == if ps.len() == 0 {
            predicate(p)
        } else {
            predicate_list(ps) + " "@ + predicate(p)
        },
{
    let all = ps.push(p);
    assert(all.drop_last() =~= ps);
    assert(all.last() == p);
    if ps.len() == 0 {
        assert(all[0] == p);
    }
}

/// The keyword of a sort direction.
pub open spec fn order_keyword(order: Order) -> Seq<char> {
    match order {
        Order::ASC => "ASC"@,
        Order::DESC => "DESC"@,
    }
}

/// One `ORDER BY` term: `<column> <direction>`.
pub open spec fn order_term(order: OrderQueryView) -> Seq<char> {
    order.column + " "@ + order_keyword(order.order)
}

/// The `ORDER BY` terms in order, separated by `, `.
pub open spec fn order_terms(orders: Seq<OrderQueryView>) -> Seq<char> {
    joined(orders.map_values(|o: OrderQueryView| order_term(o)), ", "@)
}

/// The number of rows to skip for page `page` of `limit` rows each. Pages
/// count from 1; page 0 skips nothing, like page 1.
pub open spec fn offset(limit: u64, page: u64) -> nat {
    if page == 0 {
        0
    } else {
        ((page - 1) * limit) as nat
    }
}

/// ` <joins>`, or nothing without a join.
pub open spec fn join_part(q: QueryStatementView) -> Seq<char> {
    if q.join.len() == 0 {
        Seq::empty()
    } else {
        " "@ + join_clauses(q.join)
    }
}

/// ` WHERE <predicates>`, or nothing without a predicate.
pub open spec fn where_part(q: QueryStatementView) -> Seq<char> {
    if q.where_queries.len() == 0 {
        Seq::empty()
    } else {
        " WHERE "@ + predicate_list(q.where_queries)
    }
}

/// `GROUP BY <column>`, or nothing without a grouping column.
pub open spec fn group_clause(q: QueryStatementView) -> Seq<char> {
    match q.group_by {
        Some(column) => "GROUP BY "@ + column,
        None => Seq::empty(),
    }
}

/// ` GROUP BY <column>`, or nothing without a grouping column.
pub open spec fn group_part(q: QueryStatementView) -> Seq<char> {
    if q.group_by is Some {
        " "@ + group_clause(q)
    } else {
        Seq::empty()
    }
}

/// ` HAVING <predicates>`, or nothing without such a predicate.
pub open spec fn having_part(q: QueryStatementView) -> Seq<char> {
    if q.having.len() == 0 {
        Seq::empty()
    } else {
        " HAVING "@ + predicate_list(q.having)
    }
}

/// ` ORDER BY <terms>`, or nothing without a term.
pub open spec fn order_part(q: QueryStatementView) -> Seq<char> {
    if q.order_by.len() == 0 {
        Seq::empty()
    } else {
        " ORDER BY "@ + order_terms(q.order_by)
    }
}

/// ` LIMIT <n>`, followed by ` OFFSET <m>` when a page is set; nothing
/// without a limit.
pub open spec fn limit_part(q: QueryStatementView) -> Seq<char> {
    match q.limit {
        Some(limit) => " LIMIT "@ + decimal(limit as nat) + match q.page {
            Some(page) => " OFFSET "@ + decimal(offset(limit, page)),
            None => Seq::empty(),
        },
        None => Seq::empty(),
    }
}

/// What follows the projection of a `SELECT` and decides which rows are
/// read: table, joins, filter, grouping and its filter.
pub open spec fn source(q: QueryStatementView) -> Seq<char> {
    " FROM "@ + q.table + join_part(q) + where_part(q) + group_part(q) + having_part(q)
}

/// The `SELECT` statement of `q`.
pub open spec fn select_sql(q: QueryStatementView) -> Seq<char> {
    "SELECT "@ + projection(q.select) + source(q) + order_part(q) + limit_part(q)
}

/// Whether `q` names at least one column to write.
pub open spec fn has_columns(q: QueryStatementView) -> bool {
    q.columns matches Some(columns) && columns.len() > 0
}

/// The `INSERT` statement of `q`, which must name the columns to write.
pub open spec fn insert_sql(q: QueryStatementView) -> Seq<char>
    recommends
        has_columns(q),
{
    let columns = q.columns->0;
    "INSERT INTO "@ + q.table + " ("@ + joined(columns, ", "@) + ") VALUES ("@ + joined(
        repeated("?"@, columns.len()),
        ", "@,
    ) + ")"@ + where_part(q)
}

/// One assignment of an `UPDATE`: `<column> = ?`.
pub open spec fn assignment(column: Seq<char>) -> Seq<char> {
    column + " = ?"@
}

/// The `UPDATE` statement of `q`, which must name the columns to write.
pub open spec fn update_sql(q: QueryStatementView) -> Seq<char>
    recommends
        has_columns(q),
{
    let columns = q.columns->0;
    "UPDATE "@ + q.table + " SET "@ + joined(
        columns.map_values(|c: Seq<char>| assignment(c)),
        ", "@,
    ) + where_part(q)
}

/// The `DELETE` statement of `q`.
pub open spec fn delete_sql(q: QueryStatementView) -> Seq<char> {
    "DELETE FROM "@ + q.table + where_part(q)
}

/// The number of placeholders in the text of one predicate: one for a
/// comparison, and for a group those of its members.
pub open spec fn predicate_placeholders(p: WhereQueryView) -> nat
    decreases p,
{
    match p {
        WhereQueryView::Condition { .. } => 1,
        WhereQueryView::Group { queries, .. } => placeholders(queries),
    }
}

/// The number of placeholders in the text of a list of predicates.
pub open spec fn placeholders(ps: Seq<WhereQueryView>) -> nat
    decreases ps,
{
    if ps.len() == 0 {
        0
    } else {
        placeholders(ps.drop_last()) + predicate_placeholders(ps.last())
    }
}

/// Appending one predicate adds its placeholders to those of the list.
pub proof fn lemma_placeholders_push(ps: Seq<WhereQueryView>, p: WhereQueryView)
    ensures
        placeholders(ps.push(p)) == placeholders(ps) + predicate_placeholders(p),
{
    assert(ps.push(p).drop_last() =~= ps);
}

/// The projection of a query without selected columns is `*`; with selected
/// columns it is those columns in the order in which they were selected,
/// separated by `, `. Nothing else of the statement depends on the
/// projection.
pub proof fn law_projection(q: QueryStatementView)
    ensures
        q.select.len() == 0 ==> select_sql(q) == "SELECT *"@ + source(q) + order_part(q)
            + limit_part(q),
        q.select.len() > 0 ==> select_sql(q) == "SELECT "@ + joined(q.select, ", "@) + source(q)
            + order_part(q) + limit_part(q),
        forall|column: Seq<char>|
            q.select.len() > 0 ==> #[trigger] joined(q.select.push(column), ", "@) == joined(
                q.select,
                ", "@,
            ) + ", "@ + column,
{
    reveal_strlit("SELECT ");
    reveal_strlit("*");
    reveal_strlit("SELECT *");
    assert("SELECT "@ + "*"@ =~= "SELECT *"@);
    assert forall|column: Seq<char>| q.select.len() > 0 implies #[trigger] joined(
        q.select.push(column),
        ", "@,
    ) == joined(q.select, ", "@) + ", "@ + column by {
        crate::text::lemma_joined_push(q.select, ", "@, column);
    }
}

/// Rendering depends on what the statement holds and on nothing else: two
/// statements that hold the same give the same text, for each kind of SQL.
pub proof fn law_rendering_is_pure(a: QueryStatement, b: QueryStatement)
    requires
        a@ == b@,
    ensures
        select_sql(a@) == select_sql(b@),
        insert_sql(a@) == insert_sql(b@),
        update_sql(a@) == update_sql(b@),
        delete_sql(a@) == delete_sql(b@),
{
}

/// The query that counts and the query that reads a page name the same
/// rows: table, joins, filter, grouping and its filter are rendered alike,
/// and only projection, limit and page differ.
pub proof fn law_count_reads_the_same_rows(q: QueryStatementView)
    ensures
        source(q.counting()) == source(q),
        order_part(q.counting()) == order_part(q),
        select_sql(q.counting()) == "SELECT COUNT(*) AS total"@ + source(q) + order_part(q),
        select_sql(q) == "SELECT "@ + projection(q.select) + source(q) + order_part(q)
            + limit_part(q),
{
    let c = q.counting();
    reveal_strlit("SELECT ");
    reveal_strlit("COUNT(*) AS total");
    reveal_strlit("SELECT COUNT(*) AS total");
    assert(c.select.len() == 1);
    assert(joined(c.select, ", "@) == "COUNT(*) AS total"@);
    assert("SELECT "@ + "COUNT(*) AS total"@ =~= "SELECT COUNT(*) AS total"@);
    assert(limit_part(c) =~= Seq::<char>::empty());
    assert(select_sql(c) =~= "SELECT COUNT(*) AS total"@ + source(q) + order_part(q));
}

/// A comparison whose operator is `like` in any letter case is rendered with
/// the wildcards in the text, around the placeholder; every other comparison
/// as column, operator and placeholder.
pub proof fn law_like(column: Seq<char>, operator: Seq<char>)
    ensures
        lowercase(operator) == "like"@ ==> condition(column, operator) == column
            + " LIKE '%' || ? || '%'"@,
        lowercase(operator) != "like"@ ==> condition(column, operator) == column + " "@
            + operator + " ?"@,
{
}

} // verus!
