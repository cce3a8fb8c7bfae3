//! Renders a query description to SQL text with `?` placeholders.

use vstd::prelude::*;
use crate::error::Error;
use crate::query::{
    joins, lemma_predicates, orders, predicates, JoinQuery, JoinQueryView, JoinType, Order,
    OrderQuery, OrderQueryView, QueryPosition, QueryStatement, QueryStatementView, WhereQuery,
};
use crate::sql::{
    assignment, condition_for, delete_sql, group_clause, group_part, has_columns, having_part,
    insert_sql, join_clause, join_clauses, join_part, lemma_predicate_list_push, limit_part,
    offset, order_part, order_term, order_terms, position_keyword, predicate, predicate_list,
    projection, select_sql, source, update_sql, where_part,
};
use crate::text::{decimal, decimal_text, join, joined, repeated, strings, to_lowercase};

verus! {

/// The text of a comparison of `column` with a placeholder, given the
/// operator and its lower-cased form.
pub fn condition_text(column: &str, operator: &str, lowered: &str) -> (out: String)
    ensures
        out@ == condition_for(column@, operator@, lowered@),
{
    let mut out = column.to_owned();
    if lowered.to_owned() == "like".to_owned() {
        out.append(" LIKE '%' || ? || '%'");
    } else {
        out.append(" ");
        out.append(operator);
        out.append(" ?");
    }
    out
}

fn position_text(position: QueryPosition) -> (out: &'static str)
    ensures
        out@ == position_keyword(position),
{
    match position {
        QueryPosition::AND => "AND",
        QueryPosition::OR => "OR",
    }
}

/// The text of one predicate.
pub fn predicate_text(p: &WhereQuery) -> (out: String)
    ensures
        out@ == predicate(p@),
    decreases p,
{
    let mut out = String::new();
    match p {
        WhereQuery::Condition { column, operator, position } => {
            if let Some(position) = position {
                out.append(position_text(*position));
                out.append(" ");
            }
            let lowered = to_lowercase(operator.as_str());
            let body = condition_text(column.as_str(), operator.as_str(), lowered.as_str());
            out.append(body.as_str());
        },
        WhereQuery::Group { position, queries } => {
            if let Some(position) = position {
                out.append(position_text(*position));
                out.append(" ");
            }
            let inner = predicate_list_text(queries);
            out.append("(");
            out.append(inner.as_str());
            out.append(")");
        },
    }
    out
}

/// The text of a list of predicates, separated by single spaces.
pub fn predicate_list_text(ps: &Vec<WhereQuery>) -> (out: String)
    ensures
        out@ == predicate_list(predicates(ps@)),
    decreases ps,
{
    let mut out = String::new();
    let mut i: usize = 0;
    while i < ps.len()
        invariant
            i <= ps.len(),
            out@ == predicate_list(predicates(ps@).take(i as int)),
        decreases ps.len() - i,
    {
        proof {
            lemma_predicates(ps@);
            let done = predicates(ps@).take(i as int);
            lemma_predicate_list_push(done, ps@[i as int]@);
            assert(predicates(ps@).take(i + 1) =~= done.push(ps@[i as int]@));
        }
        if i > 0 {
            out.append(" ");
        }
        let text = predicate_text(&ps[i]);
        out.append(text.as_str());
        i += 1;
    }
    proof {
        lemma_predicates(ps@);
        assert(predicates(ps@).take(ps@.len() as int) =~= predicates(ps@));
    }
    out
}

fn join_text(join: &JoinQuery) -> (out: String)
    ensures
        out@ == join_clause(join@),
{
    let keyword = match join.join_type {
        JoinType::InnerJoin => "INNER JOIN",
        JoinType::LeftJoin => "LEFT JOIN",
        JoinType::RightJoin => "RIGHT JOIN",
        JoinType::FullOuterJoin => "FULL OUTER JOIN",
        JoinType::CrossJoin => "CROSS JOIN",
    };
    let mut out = keyword.to_owned();
    out.append(" ");
    out.append(join.table.as_str());
    out.append(" ON ");
    out.append(join.column.as_str());
    out.append(" ");
    out.append(join.operator.as_str());
    out.append(" ");
    out.append(join.column_table.as_str());
    out
}

fn order_text(order: &OrderQuery) -> (out: String)
    ensures
        out@ == order_term(order@),
{
    let mut out = order.column.clone();
    out.append(" ");
    match order.order {
        Order::ASC => out.append("ASC"),
        Order::DESC => out.append("DESC"),
    }
    out
}

/// The number of rows to skip for page `page` of `limit` rows each.
pub fn offset_of(limit: u64, page: u64) -> (out: u128)
    ensures
        out == offset(limit, page),
{
    if page == 0 {
        0
    } else {
        let pages: u64 = page - 1;
        assert(pages * limit <= 0xffff_ffff_ffff_ffff * 0xffff_ffff_ffff_ffff) by (nonlinear_arith)
            requires
                0 <= pages <= 0xffff_ffff_ffff_ffff,
                0 <= limit <= 0xffff_ffff_ffff_ffff,
        ;
        (pages as u128) * (limit as u128)
    }
}

/// Renders the SQL of one query description.
#[derive(Debug)]
pub struct Builder<'q> {
    statement: &'q QueryStatement,
}

impl<'q> View for Builder<'q> {
    type V = QueryStatementView;

    closed spec fn view(&self) -> QueryStatementView {
        self.statement@
    }
}

impl<'q> Builder<'q> {
    /// A builder for `statement`.
    pub fn new(statement: &'q QueryStatement) -> (out: Self)
        ensures
            out@ == statement@,
    {
        Self { statement }
    }

    /// The projection: `*`, or the selected columns separated by `, `.
    pub fn select(&self) -> (out: String)
        ensures
            out@ == projection(self@.select),
    {
        if self.statement.select.len() == 0 {
            return "*".to_owned();
        }
        join(&self.statement.select, ", ")
    }

    /// The joins in order, separated by single spaces.
    pub fn join(&self) -> (out: String)
        ensures
            out@ == join_clauses(self@.join),
    {
        let list = &self.statement.join;
        let ghost texts = joins(list@).map_values(|j: JoinQueryView| join_clause(j));
        let mut conditions: Vec<String> = Vec::new();
        let mut i: usize = 0;
        while i < list.len()
            invariant
                i <= list.len(),
                texts == joins(list@).map_values(|j: JoinQueryView| join_clause(j)),
                strings(conditions@) == texts.take(i as int),
            decreases list.len() - i,
        {
            conditions.push(join_text(&list[i]));
            proof {
                assert(strings(conditions@) =~= texts.take(i as int).push(texts[i as int]));
                assert(texts.take(i + 1) =~= texts.take(i as int).push(texts[i as int]));
            }
            i += 1;
        }
        proof {
            assert(texts.take(list@.len() as int) =~= texts);
        }
        join(&conditions, " ")
    }

    /// The predicates of the `WHERE` clause in order, separated by single
    /// spaces.
    pub fn where_(&self) -> (out: String)
        ensures
            out@ == predicate_list(self@.where_queries),
    {
        predicate_list_text(&self.statement.where_queries)
    }

    /// `GROUP BY <column>`, or nothing without a grouping column.
    pub fn group_by(&self) -> (out: String)
        ensures
            out@ == group_clause(self@),
    {
        match &self.statement.group_by {
            Some(column) => {
                let mut out = "GROUP BY ".to_owned();
                out.append(column.as_str());
                out
            },
            None => String::new(),
        }
    }

    /// The predicates of the `HAVING` clause in order, separated by single
    /// spaces.
    pub fn having(&self) -> (out: String)
        ensures
            out@ == predicate_list(self@.having),
    {
        predicate_list_text(&self.statement.having)
    }

    /// The `ORDER BY` terms in order, separated by `, `.
    pub fn order_by(&self) -> (out: String)
        ensures
            out@ == order_terms(self@.order_by),
    {
        let list = &self.statement.order_by;
        let ghost texts = orders(list@).map_values(|o: OrderQueryView| order_term(o));
        let mut terms: Vec<String> = Vec::new();
        let mut i: usize = 0;
        while i < list.len()
            invariant
                i <= list.len(),
                texts == orders(list@).map_values(|o: OrderQueryView| order_term(o)),
                strings(terms@) == texts.take(i as int),
            decreases list.len() - i,
        {
            terms.push(order_text(&list[i]));
            proof {
                assert(strings(terms@) =~= texts.take(i as int).push(texts[i as int]));
                assert(texts.take(i + 1) =~= texts.take(i as int).push(texts[i as int]));
            }
            i += 1;
        }
        proof {
            assert(texts.take(list@.len() as int) =~= texts);
        }
        join(&terms, ", ")
    }

    fn push_join(&self, out: &mut String)
        ensures
            final(out)@ == old(out)@ + join_part(self@),
    {
        if self.statement.join.len() != 0 {
            let mut part = " ".to_owned();
            part.append(self.join().as_str());
            out.append(part.as_str());
        }
        proof {
            assert(out@ =~= old(out)@ + join_part(self@));
        }
    }

    fn push_where(&self, out: &mut String)
        ensures
            final(out)@ == old(out)@ + where_part(self@),
    {
        proof {
            lemma_predicates(self.statement.where_queries@);
        }
        if self.statement.where_queries.len() != 0 {
            let mut part = " WHERE ".to_owned();
            part.append(self.where_().as_str());
            out.append(part.as_str());
        }
        proof {
            assert(out@ =~= old(out)@ + where_part(self@));
        }
    }

    fn push_group(&self, out: &mut String)
        ensures
            final(out)@ == old(out)@ + group_part(self@),
    {
        if self.statement.group_by.is_some() {
            let mut part = " ".to_owned();
            part.append(self.group_by().as_str());
            out.append(part.as_str());
        }
        proof {
            assert(out@ =~= old(out)@ + group_part(self@));
        }
    }

    fn push_having(&self, out: &mut String)
        ensures
            final(out)@ == old(out)@ + having_part(self@),
    {
        proof {
            lemma_predicates(self.statement.having@);
        }
        if self.statement.having.len() != 0 {
            let mut part = " HAVING ".to_owned();
            part.append(self.having().as_str());
            out.append(part.as_str());
        }
        proof {
            assert(out@ =~= old(out)@ + having_part(self@));
        }
    }

    fn push_order(&self, out: &mut String)
        ensures
            final(out)@ == old(out)@ + order_part(self@),
    {
        if self.statement.order_by.len() != 0 {
            let mut part = " ORDER BY ".to_owned();
            part.append(self.order_by().as_str());
            out.append(part.as_str());
        }
        proof {
            assert(out@ =~= old(out)@ + order_part(self@));
        }
    }

    fn push_limit(&self, out: &mut String)
        ensures
            final(out)@ == old(out)@ + limit_part(self@),
    {
        if let Some(limit) = self.statement.limit {
            let mut part = " LIMIT ".to_owned();
            part.append(decimal_text(limit as u128).as_str());
            let mut skip = String::new();
            if let Some(page) = self.statement.page {
                skip.append(" OFFSET ");
                skip.append(decimal_text(offset_of(limit, page)).as_str());
            }
            proof {
                assert(skip@ =~= match self@.page {
                    Some(page) => " OFFSET "@ + decimal(offset(limit, page)),
                    None => Seq::empty(),
                });
            }
            part.append(skip.as_str());
            out.append(part.as_str());
        }
        proof {
            assert(out@ =~= old(out)@ + limit_part(self@));
        }
    }

    /// What follows the projection of a `SELECT` and decides which rows are
    /// read: table, joins, filter, grouping and its filter.
    pub fn source(&self) -> (out: String)
        ensures
            out@ == source(self@),
    {
        let mut out = " FROM ".to_owned();
        out.append(self.statement.table.as_str());
        self.push_join(&mut out);
        self.push_where(&mut out);
        self.push_group(&mut out);
        self.push_having(&mut out);
        out
    }

    /// The text of the `SELECT` statement.
    pub fn select_text(&self) -> (sql: String)
        ensures
            sql@ == select_sql(self@),
    {
        let mut sql = "SELECT ".to_owned();
        sql.append(self.select().as_str());
        sql.append(self.source().as_str());
        self.push_order(&mut sql);
        self.push_limit(&mut sql);
        sql
    }

    /// The `SELECT` statement. It is rendered for every description.
    pub fn query(&self) -> (out: Result<String, Error>)
        ensures
            out matches Ok(sql) && sql@ == select_sql(self@),
    {
        Ok(self.select_text())
    }

    /// The `INSERT` statement, with one placeholder for each column to
    /// write. Fails with [`Error::Render`] when no such column is named.
    pub fn insert(&self) -> (out: Result<String, Error>)
        ensures
            match out {
                Ok(sql) => has_columns(self@) && sql@ == insert_sql(self@),
                Err(e) => !has_columns(self@) && e == Error::Render,
            },
    {
        let columns = match &self.statement.columns {
            Some(columns) => columns,
            None => { return Err(Error::Render); },
        };
        if columns.len() == 0 {
            return Err(Error::Render);
        }
        let mut marks: Vec<String> = Vec::new();
        let mut i: usize = 0;
        while i < columns.len()
            invariant
                i <= columns.len(),
                strings(marks@) == repeated("?"@, i as nat),
            decreases columns.len() - i,
        {
            let ghost before = strings(marks@);
            marks.push("?".to_owned());
            proof {
                assert(strings(marks@) =~= before.push("?"@));
                assert(strings(marks@) =~= repeated("?"@, (i + 1) as nat));
            }
            i += 1;
        }
        let mut sql = "INSERT INTO ".to_owned();
        sql.append(self.statement.table.as_str());
        sql.append(" (");
        sql.append(join(columns, ", ").as_str());
        sql.append(") VALUES (");
        sql.append(join(&marks, ", ").as_str());
        sql.append(")");
        assert(sql@ =~= "INSERT INTO "@ + self@.table + " ("@ + joined(strings(columns@), ", "@)
            + ") VALUES ("@ + joined(repeated("?"@, columns@.len()), ", "@) + ")"@);
        self.push_where(&mut sql);
        Ok(sql)
    }

    /// The `UPDATE` statement, with one placeholder for each column to
    /// write. Fails with [`Error::Render`] when no such column is named.
    pub fn update(&self) -> (out: Result<String, Error>)
        ensures
            match out {
                Ok(sql) => has_columns(self@) && sql@ == update_sql(self@),
                Err(e) => !has_columns(self@) && e == Error::Render,
            },
    {
        let columns = match &self.statement.columns {
            Some(columns) => columns,
            None => { return Err(Error::Render); },
        };
        if columns.len() == 0 {
            return Err(Error::Render);
        }
        let ghost texts = strings(columns@).map_values(|c: Seq<char>| assignment(c));
        let mut sets: Vec<String> = Vec::new();
        let mut i: usize = 0;
        while i < columns.len()
            invariant
                i <= columns.len(),
                texts == strings(columns@).map_values(|c: Seq<char>| assignment(c)),
                strings(sets@) == texts.take(i as int),
            decreases columns.len() - i,
        {
            let mut set = columns[i].clone();
            set.append(" = ?");
            sets.push(set);
            proof {
                assert(strings(sets@) =~= texts.take(i as int).push(texts[i as int]));
                assert(texts.take(i + 1) =~= texts.take(i as int).push(texts[i as int]));
            }
            i += 1;
        }
        proof {
            assert(texts.take(columns@.len() as int) =~= texts);
        }
        let mut sql = "UPDATE ".to_owned();
        sql.append(self.statement.table.as_str());
        sql.append(" SET ");
        sql.append(join(&sets, ", ").as_str());
        self.push_where(&mut sql);
        Ok(sql)
    }

    /// The `DELETE` statement. It is rendered for every description.
    pub fn delete(&self) -> (out: Result<String, Error>)
        ensures
            out matches Ok(sql) && sql@ == delete_sql(self@),
    {
        let mut sql = "DELETE FROM ".to_owned();
        sql.append(self.statement.table.as_str());
        self.push_where(&mut sql);
        Ok(sql)
    }
}

} // verus!
