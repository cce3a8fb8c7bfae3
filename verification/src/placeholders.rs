//! Counting the placeholders in rendered text: as long as no name in a
//! statement holds a `?`, the text has one `?` for each value that the
//! statement is meant to bind.

use vstd::prelude::*;
use crate::query::{
    JoinQueryView, JoinType, Order, OrderQueryView, QueryPosition, QueryStatementView,
    StatementView, WhereQueryView,
};
use crate::sql::{
    assignment, condition, delete_sql, group_part, has_columns, having_part, insert_sql,
    join_clause, join_clauses, join_keyword, join_part, limit_part, offset, order_keyword,
    order_part, order_term, order_terms, placeholders, position_keyword, predicate,
    predicate_list, predicate_placeholders, projection, select_sql, source, update_sql,
    where_part,
};
use crate::text::{decimal, digit, joined, repeated};

verus! {

/// The number of `?` in `s`.
pub open spec fn marks(s: Seq<char>) -> nat
    decreases s.len(),
{
    if s.len() == 0 {
        0
    } else {
        marks(s.drop_last()) + if s.last() == '?' {
            1nat
        } else {
            0nat
        }
    }
}

/// Whether `s` holds no `?`.
pub open spec fn plain(s: Seq<char>) -> bool {
    marks(s) == 0
}

/// Whether none of `parts` holds a `?`.
pub open spec fn all_plain(parts: Seq<Seq<char>>) -> bool {
    forall|i: int| 0 <= i < parts.len() ==> plain(#[trigger] parts[i])
}

/// Whether no column and no operator of `p`, or of a predicate inside it,
/// holds a `?`.
pub open spec fn plain_predicate(p: WhereQueryView) -> bool
    decreases p,
{
    match p {
        WhereQueryView::Condition { column, operator, .. } => plain(column) && plain(operator),
        WhereQueryView::Group { queries, .. } => plain_predicates(queries),
    }
}

/// Whether no column and no operator in `ps` holds a `?`.
pub open spec fn plain_predicates(ps: Seq<WhereQueryView>) -> bool
    decreases ps,
{
    if ps.len() == 0 {
        true
    } else {
        plain_predicates(ps.drop_last()) && plain_predicate(ps.last())
    }
}

/// Whether no name in the join holds a `?`.
pub open spec fn plain_join(j: JoinQueryView) -> bool {
    plain(j.table) && plain(j.column) && plain(j.operator) && plain(j.column_table)
}

impl QueryStatementView {
    /// Whether no name in the statement holds a `?`: table, columns,
    /// operators.
    pub open spec fn plain(self) -> bool {
        &&& plain(self.table)
        &&& all_plain(self.select)
        &&& self.columns matches Some(columns) ==> all_plain(columns)
        &&& forall|i: int| 0 <= i < self.join.len() ==> plain_join(#[trigger] self.join[i])
        &&& plain_predicates(self.where_queries)
        &&& self.group_by matches Some(column) ==> plain(column)
        &&& plain_predicates(self.having)
        &&& forall|i: int|
            0 <= i < self.order_by.len() ==> plain((#[trigger] self.order_by[i]).column)
    }
}

/// The marks of a concatenation are those of its parts.
pub proof fn lemma_marks_concat(a: Seq<char>, b: Seq<char>)
    ensures
        marks(a + b) == marks(a) + marks(b),
    decreases b.len(),
{
    if b.len() == 0 {
        assert(a + b =~= a);
    } else {
        lemma_marks_concat(a, b.drop_last());
        assert((a + b).drop_last() =~= a + b.drop_last());
        assert((a + b).last() == b.last());
    }
}

/// Parts with `k` marks each, joined by a separator without one, have `k`
/// marks for each part.
pub proof fn lemma_marks_joined(parts: Seq<Seq<char>>, sep: Seq<char>, k: nat)
    requires
        forall|i: int| 0 <= i < parts.len() ==> marks(#[trigger] parts[i]) == k,
        plain(sep),
    ensures
        marks(joined(parts, sep)) == k * parts.len(),
    decreases parts.len(),
{
    if parts.len() == 0 {
        assert(k * 0 == 0) by (nonlinear_arith);
    } else if parts.len() == 1 {
        assert(k * 1 == k) by (nonlinear_arith);
    } else {
        let n = parts.len();
        lemma_marks_joined(parts.drop_last(), sep, k);
        lemma_marks_concat(joined(parts.drop_last(), sep), sep);
        lemma_marks_concat(joined(parts.drop_last(), sep) + sep, parts.last());
        assert(k * (n - 1) + k == k * n) by (nonlinear_arith);
    }
}

proof fn lemma_marks_digit(d: nat)
    ensures
        plain(digit(d)),
{
    reveal_strlit("0");
    reveal_strlit("1");
    reveal_strlit("2");
    reveal_strlit("3");
    reveal_strlit("4");
    reveal_strlit("5");
    reveal_strlit("6");
    reveal_strlit("7");
    reveal_strlit("8");
    reveal_strlit("9");
    reveal_with_fuel(marks, 2);
}

/// A decimal numeral holds no `?`.
pub proof fn lemma_marks_decimal(n: nat)
    ensures
        plain(decimal(n)),
    decreases n,
{
    if n < 10 {
        lemma_marks_digit(n);
    } else {
        lemma_marks_decimal(n / 10);
        lemma_marks_digit(n % 10);
        lemma_marks_concat(decimal(n / 10), digit(n % 10));
    }
}

proof fn lemma_marks_keywords()
    ensures
        marks(" LIKE '%' || ? || '%'"@) == 1,
        marks(" ?"@) == 1,
        marks(" = ?"@) == 1,
        marks("?"@) == 1,
        plain(" "@),
        plain(", "@),
        plain("("@),
        plain(")"@),
        plain("*"@),
        forall|p: QueryPosition| plain(#[trigger] position_keyword(p)),
        forall|j: JoinType| plain(#[trigger] join_keyword(j)),
        forall|o: Order| plain(#[trigger] order_keyword(o)),
{
    reveal_strlit(" LIKE '%' || ? || '%'");
    reveal_strlit(" ?");
    reveal_strlit(" = ?");
    reveal_strlit("?");
    reveal_strlit(" ");
    reveal_strlit(", ");
    reveal_strlit("(");
    reveal_strlit(")");
    reveal_strlit("*");
    reveal_strlit("AND");
    reveal_strlit("OR");
    reveal_strlit("INNER JOIN");
    reveal_strlit("LEFT JOIN");
    reveal_strlit("RIGHT JOIN");
    reveal_strlit("FULL OUTER JOIN");
    reveal_strlit("CROSS JOIN");
    reveal_strlit("ASC");
    reveal_strlit("DESC");
    reveal_with_fuel(marks, 22);
}

proof fn lemma_marks_clauses()
    ensures
        plain("SELECT "@),
        plain(" FROM "@),
        plain(" ON "@),
        plain(" WHERE "@),
        plain("GROUP BY "@),
        plain(" HAVING "@),
        plain(" ORDER BY "@),
        plain(" LIMIT "@),
        plain(" OFFSET "@),
        plain("INSERT INTO "@),
        plain(" ("@),
        plain(") VALUES ("@),
        plain("UPDATE "@),
        plain(" SET "@),
        plain("DELETE FROM "@),
{
    reveal_strlit("SELECT ");
    reveal_strlit(" FROM ");
    reveal_strlit(" ON ");
    reveal_strlit(" WHERE ");
    reveal_strlit("GROUP BY ");
    reveal_strlit(" HAVING ");
    reveal_strlit(" ORDER BY ");
    reveal_strlit(" LIMIT ");
    reveal_strlit(" OFFSET ");
    reveal_strlit("INSERT INTO ");
    reveal_strlit(" (");
    reveal_strlit(") VALUES (");
    reveal_strlit("UPDATE ");
    reveal_strlit(" SET ");
    reveal_strlit("DELETE FROM ");
    reveal_with_fuel(marks, 14);
}

/// The text of a comparison of plain names has one `?`.
pub proof fn lemma_marks_condition(column: Seq<char>, operator: Seq<char>)
    requires
        plain(column),
        plain(operator),
    ensures
        marks(condition(column, operator)) == 1,
{
    lemma_marks_keywords();
    lemma_marks_concat(column, " LIKE '%' || ? || '%'"@);
    lemma_marks_concat(column, " "@);
    lemma_marks_concat(column + " "@, operator);
    lemma_marks_concat(column + " "@ + operator, " ?"@);
}

/// The text of a predicate of plain names has one `?` for each of its
/// placeholders.
pub proof fn lemma_marks_predicate(p: WhereQueryView)
    requires
        plain_predicate(p),
    ensures
        marks(predicate(p)) == predicate_placeholders(p),
    decreases p,
{
    lemma_marks_keywords();
    let body = match p {
        WhereQueryView::Condition { column, operator, .. } => condition(column, operator),
        WhereQueryView::Group { queries, .. } => "("@ + predicate_list(queries) + ")"@,
    };
    match p {
        WhereQueryView::Condition { column, operator, .. } => {
            lemma_marks_condition(column, operator);
        },
        WhereQueryView::Group { queries, .. } => {
            lemma_marks_predicates(queries);
            lemma_marks_concat("("@, predicate_list(queries));
            lemma_marks_concat("("@ + predicate_list(queries), ")"@);
        },
    }
    assert(marks(body) == predicate_placeholders(p));
    match p.position() {
        Some(position) => {
            lemma_marks_concat(position_keyword(position), " "@);
            lemma_marks_concat(position_keyword(position) + " "@, body);
        },
        None => {},
    }
}

/// The text of a list of predicates of plain names has one `?` for each of
/// its placeholders.
pub proof fn lemma_marks_predicates(ps: Seq<WhereQueryView>)
    requires
        plain_predicates(ps),
    ensures
        marks(predicate_list(ps)) == placeholders(ps),
    decreases ps,
{
    lemma_marks_keywords();
    if ps.len() == 0 {
    } else if ps.len() == 1 {
        lemma_marks_predicate(ps[0]);
        assert(ps.last() == ps[0]);
        assert(placeholders(ps.drop_last()) == 0);
    } else {
        lemma_marks_predicates(ps.drop_last());
        lemma_marks_predicate(ps.last());
        lemma_marks_concat(predicate_list(ps.drop_last()), " "@);
        lemma_marks_concat(predicate_list(ps.drop_last()) + " "@, predicate(ps.last()));
    }
}

proof fn lemma_marks_join_clause(j: JoinQueryView)
    requires
        plain_join(j),
    ensures
        plain(join_clause(j)),
{
    lemma_marks_keywords();
    lemma_marks_clauses();
    let a = join_keyword(j.join_type) + " "@;
    let b = a + j.table;
    let c = b + " ON "@;
    let d = c + j.column;
    let e = d + " "@;
    let f = e + j.operator;
    let g = f + " "@;
    lemma_marks_concat(join_keyword(j.join_type), " "@);
    lemma_marks_concat(a, j.table);
    lemma_marks_concat(b, " ON "@);
    lemma_marks_concat(c, j.column);
    lemma_marks_concat(d, " "@);
    lemma_marks_concat(e, j.operator);
    lemma_marks_concat(f, " "@);
    lemma_marks_concat(g, j.column_table);
}

proof fn lemma_marks_source(q: QueryStatementView)
    requires
        q.plain(),
    ensures
        plain(projection(q.select)),
        plain(join_part(q)),
        marks(where_part(q)) == placeholders(q.where_queries),
        plain(group_part(q)),
        marks(having_part(q)) == placeholders(q.having),
        plain(order_part(q)),
        plain(limit_part(q)),
        marks(source(q)) == placeholders(q.where_queries) + placeholders(q.having),
{
    lemma_marks_keywords();
    lemma_marks_clauses();
    lemma_marks_joined(q.select, ", "@, 0);
    let joins = q.join.map_values(|j: JoinQueryView| join_clause(j));
    assert forall|i: int| 0 <= i < joins.len() implies marks(#[trigger] joins[i]) == 0 by {
        lemma_marks_join_clause(q.join[i]);
    }
    lemma_marks_joined(joins, " "@, 0);
    lemma_marks_concat(" "@, join_clauses(q.join));
    lemma_marks_predicates(q.where_queries);
    lemma_marks_concat(" WHERE "@, predicate_list(q.where_queries));
    match q.group_by {
        Some(column) => {
            lemma_marks_concat("GROUP BY "@, column);
            lemma_marks_concat(" "@, "GROUP BY "@ + column);
        },
        None => {},
    }
    lemma_marks_predicates(q.having);
    lemma_marks_concat(" HAVING "@, predicate_list(q.having));
    let terms = q.order_by.map_values(|o: OrderQueryView| order_term(o));
    assert forall|i: int| 0 <= i < terms.len() implies marks(#[trigger] terms[i]) == 0 by {
        let o = q.order_by[i];
        lemma_marks_concat(o.column, " "@);
        lemma_marks_concat(o.column + " "@, order_keyword(o.order));
    }
    lemma_marks_joined(terms, ", "@, 0);
    lemma_marks_concat(" ORDER BY "@, order_terms(q.order_by));
    match q.limit {
        Some(limit) => {
            lemma_marks_decimal(limit as nat);
            lemma_marks_concat(" LIMIT "@, decimal(limit as nat));
            match q.page {
                Some(page) => {
                    lemma_marks_decimal(offset(limit, page));
                    lemma_marks_concat(" OFFSET "@, decimal(offset(limit, page)));
                    lemma_marks_concat(
                        " LIMIT "@ + decimal(limit as nat),
                        " OFFSET "@ + decimal(offset(limit, page)),
                    );
                },
                None => {
                    lemma_marks_concat(" LIMIT "@ + decimal(limit as nat), Seq::empty());
                },
            }
        },
        None => {},
    }
    let a = " FROM "@ + q.table;
    let b = a + join_part(q);
    let c = b + where_part(q);
    let d = c + group_part(q);
    lemma_marks_concat(" FROM "@, q.table);
    lemma_marks_concat(a, join_part(q));
    lemma_marks_concat(b, where_part(q));
    lemma_marks_concat(c, group_part(q));
    lemma_marks_concat(d, having_part(q));
}

/// The `SELECT` text of a statement of plain names has one `?` for each
/// placeholder of its filters.
pub proof fn law_select_marks(q: QueryStatementView)
    requires
        q.plain(),
    ensures
        marks(select_sql(q)) == placeholders(q.where_queries) + placeholders(q.having),
{
    lemma_marks_clauses();
    lemma_marks_source(q);
    let a = "SELECT "@ + projection(q.select);
    let b = a + source(q);
    let c = b + order_part(q);
    lemma_marks_concat("SELECT "@, projection(q.select));
    lemma_marks_concat(a, source(q));
    lemma_marks_concat(b, order_part(q));
    lemma_marks_concat(c, limit_part(q));
}

/// The `INSERT` text of a statement of plain names has one `?` for each
/// column to write and one for each placeholder of its filter.
pub proof fn law_insert_marks(q: QueryStatementView)
    requires
        q.plain(),
        has_columns(q),
    ensures
        marks(insert_sql(q)) == (q.columns->0).len() + placeholders(q.where_queries),
{
    lemma_marks_keywords();
    lemma_marks_clauses();
    lemma_marks_source(q);
    let columns = q.columns->0;
    let names = joined(columns, ", "@);
    let values = joined(repeated("?"@, columns.len()), ", "@);
    lemma_marks_joined(columns, ", "@, 0);
    lemma_marks_joined(repeated("?"@, columns.len()), ", "@, 1);
    let a = "INSERT INTO "@ + q.table;
    let b = a + " ("@;
    let c = b + names;
    let d = c + ") VALUES ("@;
    let e = d + values;
    let f = e + ")"@;
    lemma_marks_concat("INSERT INTO "@, q.table);
    lemma_marks_concat(a, " ("@);
    lemma_marks_concat(b, names);
    lemma_marks_concat(c, ") VALUES ("@);
    lemma_marks_concat(d, values);
    lemma_marks_concat(e, ")"@);
    lemma_marks_concat(f, where_part(q));
}

/// The `UPDATE` text of a statement of plain names has one `?` for each
/// column to write and one for each placeholder of its filter.
pub proof fn law_update_marks(q: QueryStatementView)
    requires
        q.plain(),
        has_columns(q),
    ensures
        marks(update_sql(q)) == (q.columns->0).len() + placeholders(q.where_queries),
{
    lemma_marks_keywords();
    lemma_marks_clauses();
    lemma_marks_source(q);
    let columns = q.columns->0;
    let sets = columns.map_values(|c: Seq<char>| assignment(c));
    assert forall|i: int| 0 <= i < sets.len() implies marks(#[trigger] sets[i]) == 1 by {
        lemma_marks_concat(columns[i], " = ?"@);
    }
    lemma_marks_joined(sets, ", "@, 1);
    let a = "UPDATE "@ + q.table;
    let b = a + " SET "@;
    let c = b + joined(sets, ", "@);
    lemma_marks_concat("UPDATE "@, q.table);
    lemma_marks_concat(a, " SET "@);
    lemma_marks_concat(b, joined(sets, ", "@));
    lemma_marks_concat(c, where_part(q));
}

/// The `DELETE` text of a statement of plain names has one `?` for each
/// placeholder of its filter.
pub proof fn law_delete_marks(q: QueryStatementView)
    requires
        q.plain(),
    ensures
        marks(delete_sql(q)) == placeholders(q.where_queries),
{
    lemma_marks_clauses();
    lemma_marks_source(q);
    lemma_marks_concat("DELETE FROM "@, q.table);
    lemma_marks_concat("DELETE FROM "@ + q.table, where_part(q));
}

/// The query that counts and the query that reads a page have the same
/// placeholders, so that one list of bound values serves both.
pub proof fn law_count_binds_the_same_values(q: QueryStatementView)
    requires
        q.plain(),
    ensures
        q.counting().plain(),
        marks(select_sql(q.counting())) == marks(select_sql(q)),
{
    reveal_strlit("COUNT(*) AS total");
    assert(plain("COUNT(*) AS total"@)) by {
        reveal_with_fuel(marks, 18);
    }
    law_select_marks(q);
    law_select_marks(q.counting());
}

/// An aligned statement of plain names binds exactly as many values as its
/// `SELECT` text has placeholders.
pub proof fn law_values_match_placeholders(s: StatementView)
    requires
        s.query.plain(),
        s.aligned(),
    ensures
        marks(select_sql(s.query)) == s.arguments.len(),
{
    law_select_marks(s.query);
}

} // verus!
