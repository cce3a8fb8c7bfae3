use flyer_orm::query::{
    JoinQuery, JoinType, Order, OrderQuery, QueryPosition, Statement, WhereQuery,
};
use flyer_orm::{Error, Query, Value, WhereQueryGroup};

fn condition(column: &str, operator: &str, position: Option<QueryPosition>) -> WhereQuery {
    WhereQuery::Condition {
        column: column.to_string(),
        operator: operator.to_string(),
        position,
    }
}

#[test]
fn new_statement_is_empty() {
    let s = Statement::new("users");
    assert_eq!(s.query.table, "users");
    assert!(s.query.select.is_empty());
    assert_eq!(s.query.columns, None);
    assert!(s.query.join.is_empty());
    assert!(s.query.where_queries.is_empty());
    assert_eq!(s.query.group_by, None);
    assert!(s.query.having.is_empty());
    assert!(s.query.order_by.is_empty());
    assert_eq!(s.query.limit, None);
    assert_eq!(s.query.page, None);
    assert!(s.arguments.is_empty());
}

#[test]
fn new_query_holds_an_empty_statement() {
    let q = Query::new("users");
    assert_eq!(*q.statement(), Statement::new("users"));
    assert_eq!(q.to_sql().unwrap(), "SELECT * FROM users");
}

#[test]
fn end_to_end_example() {
    let mut q = Query::new("users");
    q.where_("email", "=", Value::text("a@example.com")).limit(10);
    assert_eq!(
        q.to_sql().unwrap(),
        "SELECT * FROM users WHERE email = ? LIMIT 10"
    );
    assert_eq!(
        q.statement().arguments,
        vec![Value::Text("a@example.com".to_string())]
    );
}

#[test]
fn like_binds_the_value_unwrapped() {
    let mut q = Query::new("users");
    q.where_("name", "LIKE", Value::text("abc"));
    assert_eq!(
        q.to_sql().unwrap(),
        "SELECT * FROM users WHERE name LIKE '%' || ? || '%'"
    );
    assert_eq!(q.statement().arguments, vec![Value::Text("abc".to_string())]);
}

#[test]
fn table_overwrites() {
    let mut q = Query::new("users");
    q.table("posts").table("tags");
    assert_eq!(q.statement().query.table, "tags");
    assert_eq!(q.to_sql().unwrap(), "SELECT * FROM tags");
}

#[test]
fn select_accumulates_in_insertion_order() {
    let mut q = Query::new("users");
    q.select(vec!["uuid", "email"]).select(vec![]).select(vec!["first_name"]);
    assert_eq!(q.statement().query.select, vec!["uuid", "email", "first_name"]);
    assert_eq!(
        q.to_sql().unwrap(),
        "SELECT uuid, email, first_name FROM users"
    );
}

#[test]
fn first_predicate_has_no_keyword_whatever_adds_it() {
    let mut a = Query::new("t");
    a.where_("x", "=", Value::Int(1));
    let mut b = Query::new("t");
    b.and_where("x", "=", Value::Int(1));
    let mut c = Query::new("t");
    c.or_where("x", "=", Value::Int(1));
    let expected = vec![condition("x", "=", None)];
    assert_eq!(a.statement().query.where_queries, expected);
    assert_eq!(b.statement().query.where_queries, expected);
    assert_eq!(c.statement().query.where_queries, expected);
    assert_eq!(a.statement(), b.statement());
    assert_eq!(a.statement(), c.statement());
}

#[test]
fn later_predicates_carry_the_keyword_of_their_method() {
    let mut q = Query::new("t");
    q.where_("a", "=", Value::Int(1))
        .and_where("b", "<", Value::Int(2))
        .or_where("c", ">", Value::Int(3))
        .where_("d", "like", Value::text("x"));
    assert_eq!(
        q.statement().query.where_queries,
        vec![
            condition("a", "=", None),
            condition("b", "<", Some(QueryPosition::AND)),
            condition("c", ">", Some(QueryPosition::OR)),
            condition("d", "like", Some(QueryPosition::AND)),
        ]
    );
    assert_eq!(
        q.statement().arguments,
        vec![Value::Int(1), Value::Int(2), Value::Int(3), Value::Text("x".to_string())]
    );
    assert_eq!(
        q.to_sql().unwrap(),
        "SELECT * FROM t WHERE a = ? AND b < ? OR c > ? AND d LIKE '%' || ? || '%'"
    );
}

#[test]
fn where_after_the_first_is_and_where() {
    let mut a = Query::new("t");
    a.where_("a", "=", Value::Int(1))
        .where_("b", "=", Value::Int(2))
        .or_where("c", "=", Value::Int(3));
    let mut b = Query::new("t");
    b.and_where("a", "=", Value::Int(1))
        .and_where("b", "=", Value::Int(2))
        .or_where("c", "=", Value::Int(3));
    let mut c = Query::new("t");
    c.or_where("a", "=", Value::Int(1))
        .where_("b", "=", Value::Int(2))
        .or_where("c", "=", Value::Int(3));
    assert_eq!(a.statement(), b.statement());
    assert_eq!(a.statement(), c.statement());
    assert_eq!(a.to_sql().unwrap(), "SELECT * FROM t WHERE a = ? AND b = ? OR c = ?");
}

#[test]
fn every_predicate_binds_one_value() {
    let mut q = Query::new("t");
    assert_eq!(q.statement().arguments.len(), 0);
    q.where_("a", "=", Value::Null);
    assert_eq!(q.statement().arguments.len(), 1);
    q.or_where("b", "=", Value::Bool(true));
    assert_eq!(q.statement().arguments.len(), 2);
    q.and_where("c", "=", Value::Blob(vec![1, 2, 3]));
    assert_eq!(q.statement().arguments.len(), 3);
    assert_eq!(q.statement().query.where_queries.len(), 3);
    assert_eq!(
        q.statement().arguments,
        vec![Value::Null, Value::Bool(true), Value::Blob(vec![1, 2, 3])]
    );
    let placeholders = q.to_sql().unwrap().matches('?').count();
    assert_eq!(placeholders, q.statement().arguments.len());
}

#[test]
fn other_calls_leave_predicates_and_values_alone() {
    let mut q = Query::new("t");
    q.where_("a", "=", Value::Int(1));
    q.table("u")
        .select(vec!["x"])
        .join("v", "u.id", "v.u")
        .order_by("x", Order::DESC)
        .group_by("x")
        .limit(3)
        .paginate(4, 5);
    assert_eq!(q.statement().query.where_queries, vec![condition("a", "=", None)]);
    assert_eq!(q.statement().arguments, vec![Value::Int(1)]);
}

#[test]
fn group_is_appended_with_its_values() {
    let mut q = Query::new("users");
    q.where_("active", "=", Value::Bool(true));
    q.or_where_group(|g| {
        g.where_("age", ">", Value::Int(18)).or_where("role", "=", Value::text("admin"))
    });
    q.and_where("email", "like", Value::text("example"));
    assert_eq!(
        q.to_sql().unwrap(),
        "SELECT * FROM users WHERE active = ? OR (age > ? OR role = ?) AND email LIKE '%' || ? || '%'"
    );
    assert_eq!(
        q.statement().arguments,
        vec![
            Value::Bool(true),
            Value::Int(18),
            Value::Text("admin".to_string()),
            Value::Text("example".to_string()),
        ]
    );
    assert_eq!(
        q.statement().query.where_queries[1],
        WhereQuery::Group {
            position: Some(QueryPosition::OR),
            queries: vec![
                condition("age", ">", None),
                condition("role", "=", Some(QueryPosition::OR)),
            ],
        }
    );
}

#[test]
fn group_as_first_predicate_has_no_keyword_in_a_query() {
    let mut a = Query::new("t");
    a.where_group(|g| g.where_("a", "=", Value::Int(1)));
    let mut b = Query::new("t");
    b.and_where_group(|g| g.and_where("a", "=", Value::Int(1)));
    let mut c = Query::new("t");
    c.or_where_group(|g| g.or_where("a", "=", Value::Int(1)));
    assert_eq!(a.to_sql().unwrap(), "SELECT * FROM t WHERE (a = ?)");
    assert_eq!(a.statement(), b.statement());
    assert_eq!(a.statement(), c.statement());
}

#[test]
fn where_group_after_the_first_is_and_where_group() {
    let mut a = Query::new("t");
    a.where_("x", "=", Value::Int(0)).where_group(|g| g.where_("a", "=", Value::Int(1)));
    let mut b = Query::new("t");
    b.where_("x", "=", Value::Int(0)).and_where_group(|g| g.where_("a", "=", Value::Int(1)));
    assert_eq!(a.to_sql().unwrap(), "SELECT * FROM t WHERE x = ? AND (a = ?)");
    assert_eq!(a.statement(), b.statement());
}

#[test]
fn groups_nest() {
    let inner = WhereQueryGroup::new()
        .where_("c", "=", Value::Int(3))
        .and_where("d", "=", Value::Int(4));
    let outer = WhereQueryGroup::new()
        .where_("b", "=", Value::Int(2))
        .group(QueryPosition::OR, inner);
    let mut q = Query::new("t");
    q.where_("a", "=", Value::Int(1)).group(QueryPosition::AND, outer);
    assert_eq!(
        q.to_sql().unwrap(),
        "SELECT * FROM t WHERE a = ? AND (b = ? OR (c = ? AND d = ?))"
    );
    assert_eq!(
        q.statement().arguments,
        vec![Value::Int(1), Value::Int(2), Value::Int(3), Value::Int(4)]
    );
}

#[test]
fn join_defaults_to_left_join_on_equality() {
    let mut q = Query::new("users");
    q.join("posts", "users.id", "posts.user_id");
    assert_eq!(
        q.statement().query.join,
        vec![JoinQuery {
            table: "posts".to_string(),
            column: "users.id".to_string(),
            operator: "=".to_string(),
            column_table: "posts.user_id".to_string(),
            join_type: JoinType::LeftJoin,
        }]
    );
    assert_eq!(
        q.to_sql().unwrap(),
        "SELECT * FROM users LEFT JOIN posts ON users.id = posts.user_id"
    );
}

#[test]
fn joins_accumulate() {
    let mut q = Query::new("a");
    q.join("b", "a.id", "b.a")
        .join_with(JoinType::InnerJoin, "c", "b.id", "<", "c.b")
        .join_with(JoinType::CrossJoin, "d", "c.id", "=", "d.c");
    assert_eq!(
        q.to_sql().unwrap(),
        "SELECT * FROM a LEFT JOIN b ON a.id = b.a INNER JOIN c ON b.id < c.b CROSS JOIN d ON c.id = d.c"
    );
}

#[test]
fn order_by_accumulates() {
    let mut q = Query::new("users");
    q.order_by("created_at", Order::DESC).order_by("email", Order::ASC);
    assert_eq!(
        q.statement().query.order_by,
        vec![
            OrderQuery { column: "created_at".to_string(), order: Order::DESC },
            OrderQuery { column: "email".to_string(), order: Order::ASC },
        ]
    );
    assert_eq!(
        q.to_sql().unwrap(),
        "SELECT * FROM users ORDER BY created_at DESC, email ASC"
    );
}

#[test]
fn limit_and_group_by_overwrite() {
    let mut q = Query::new("users");
    q.limit(10).limit(20).group_by("a").group_by("b");
    assert_eq!(q.statement().query.limit, Some(20));
    assert_eq!(q.statement().query.group_by, Some("b".to_string()));
    assert_eq!(q.to_sql().unwrap(), "SELECT * FROM users GROUP BY b LIMIT 20");
}

#[test]
fn paginate_sets_limit_and_page() {
    let mut q = Query::new("users");
    q.limit(3).paginate(10, 2);
    assert_eq!(q.statement().query.limit, Some(10));
    assert_eq!(q.statement().query.page, Some(2));
    assert_eq!(q.to_sql().unwrap(), "SELECT * FROM users LIMIT 10 OFFSET 10");
}

#[test]
fn bind_appends_a_value_only() {
    let mut q = Query::new("users");
    q.bind(Value::Int(7)).bind(Value::text("x"));
    assert_eq!(
        q.statement().arguments,
        vec![Value::Int(7), Value::Text("x".to_string())]
    );
    assert!(q.statement().query.where_queries.is_empty());
    assert_eq!(q.to_sql().unwrap(), "SELECT * FROM users");
}

#[test]
fn insert_as_example() {
    let mut q = Query::new("users");
    let mut insert = q.insert_as(vec!["uuid", "first_name"]);
    insert.bind(Value::text("u1")).bind(Value::text("Jane"));
    assert_eq!(
        insert.to_sql().unwrap(),
        "INSERT INTO users (uuid, first_name) VALUES (?, ?)"
    );
    assert_eq!(
        insert.statement.arguments,
        vec![Value::Text("u1".to_string()), Value::Text("Jane".to_string())]
    );
    assert_eq!(
        q.statement().query.columns,
        Some(vec!["uuid".to_string(), "first_name".to_string()])
    );
    assert_eq!(q.statement().arguments.len(), 2);
}

#[test]
fn insert_as_without_columns_is_a_render_error() {
    let mut q = Query::new("users");
    let insert = q.insert_as(Vec::new());
    assert_eq!(insert.to_sql(), Err(Error::Render));
}

#[test]
fn insert_as_replaces_the_columns_named_before() {
    let mut q = Query::new("users");
    q.insert_as(vec!["a", "b"]);
    let insert = q.insert_as(vec!["c"]);
    assert_eq!(insert.to_sql().unwrap(), "INSERT INTO users (c) VALUES (?)");
}

#[test]
fn into_statement_hands_over_what_was_built() {
    let mut q = Query::new("users");
    q.where_("a", "=", Value::Int(1)).limit(2);
    let copy = q.statement().clone();
    let s = q.into_statement();
    assert_eq!(s, copy);
    assert_eq!(s.query.limit, Some(2));
    assert_eq!(s.arguments, vec![Value::Int(1)]);
}

#[test]
fn value_clone_keeps_the_value() {
    let all = vec![
        Value::Null,
        Value::Bool(false),
        Value::Int(-5),
        Value::Text("héllo".to_string()),
        Value::Blob(vec![0, 255, 7]),
    ];
    for v in &all {
        assert_eq!(v.clone(), *v);
    }
    assert_eq!(flyer_orm::value::clone_values(&all), all);
    assert_eq!(Value::text("abc"), Value::Text("abc".to_string()));
}
