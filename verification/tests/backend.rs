use flyer_orm::query::{Order, Pagination, QueryPosition, Statement, WhereQuery};
use flyer_orm::sqlite::{arguments, inserted, paginate, to_sql};
use flyer_orm::sqlite::builder::Builder;
use flyer_orm::{Error, Query, Value};
use sqlx::sqlite::{SqlitePool, SqlitePoolOptions};
use sqlx::{Arguments, Row};

#[test]
fn arguments_hold_nothing_for_no_value() {
    let args = arguments(&Vec::new());
    assert_eq!(args.len(), 0);
    assert_eq!(format!("{:?}", args), "SqliteArguments { values: [] }");
}

#[test]
fn arguments_hold_each_value_at_its_position() {
    let args = arguments(&vec![
        Value::text("abc"),
        Value::Int(-42),
        Value::Null,
        Value::Bool(true),
        Value::Bool(false),
        Value::Blob(vec![1, 2, 255]),
    ]);
    assert_eq!(args.len(), 6);
    assert_eq!(
        format!("{:?}", args),
        "SqliteArguments { values: [Text(\"abc\"), Int64(-42), Null, Int(1), Int(0), Blob([1, 2, 255])] }"
    );
}

#[test]
fn arguments_keep_text_as_it_was_bound() {
    let mut q = Query::new("users");
    q.where_("name", "LIKE", Value::text("abc"));
    let args = arguments(&q.statement().arguments);
    assert_eq!(format!("{:?}", args), "SqliteArguments { values: [Text(\"abc\")] }");
}

#[test]
fn to_sql_renders_the_select() {
    let mut q = Query::new("users");
    q.select(vec!["email"]).where_("uuid", "=", Value::text("u1"));
    assert_eq!(
        to_sql(q.statement()).unwrap(),
        "SELECT email FROM users WHERE uuid = ?"
    );
    assert_eq!(to_sql(q.statement()), q.to_sql());
}

#[test]
fn inserted_row_is_read_back_by_its_row_id() {
    let s = inserted("users", 17);
    assert_eq!(s.query.table, "users");
    assert_eq!(
        s.query.where_queries,
        vec![WhereQuery::Condition {
            column: "rowid".to_string(),
            operator: "=".to_string(),
            position: None,
        }]
    );
    assert_eq!(s.arguments, vec![Value::Int(17)]);
    assert_eq!(to_sql(&s).unwrap(), "SELECT * FROM users WHERE rowid = ?");
    let mut expected = Statement::new("users");
    expected.query.where_queries.push(WhereQuery::Condition {
        column: "rowid".to_string(),
        operator: "=".to_string(),
        position: None,
    });
    expected.arguments.push(Value::Int(17));
    assert_eq!(s, expected);
}

#[test]
fn paginate_without_limit_or_page_is_a_contract_error() {
    let mut q = Query::new("users");
    assert_eq!(paginate(q.statement()).err(), Some(Error::Contract));
    q.limit(10);
    assert_eq!(paginate(q.statement()).err(), Some(Error::Contract));
    let mut s = Statement::new("users");
    s.query.page = Some(1);
    assert_eq!(paginate(&s).err(), Some(Error::Contract));
}

#[test]
fn paginate_plans_a_count_and_a_page() {
    let mut q = Query::new("users");
    q.select(vec!["uuid", "email"])
        .where_("active", "=", Value::Bool(true))
        .or_where("role", "like", Value::text("adm"))
        .join("teams", "users.team", "teams.id")
        .order_by("email", Order::ASC)
        .paginate(10, 3);
    let plan = paginate(q.statement()).unwrap();
    assert_eq!(plan.page, 3);
    assert_eq!(plan.per_page, 10);
    assert_eq!(
        plan.count_sql,
        "SELECT COUNT(*) AS total FROM users LEFT JOIN teams ON users.team = teams.id WHERE active = ? OR role LIKE '%' || ? || '%' ORDER BY email ASC"
    );
    assert_eq!(
        plan.items_sql,
        "SELECT uuid, email FROM users LEFT JOIN teams ON users.team = teams.id WHERE active = ? OR role LIKE '%' || ? || '%' ORDER BY email ASC LIMIT 10 OFFSET 20"
    );
    assert_eq!(plan.items_sql, q.to_sql().unwrap());
}

#[test]
fn projection_does_not_change_the_count_query() {
    let mut a = Query::new("users");
    a.where_("active", "=", Value::Bool(true)).paginate(10, 1);
    let mut b = Query::new("users");
    b.select(vec!["uuid"]).where_("active", "=", Value::Bool(true)).paginate(10, 1);
    let plan_a = paginate(a.statement()).unwrap();
    let plan_b = paginate(b.statement()).unwrap();
    assert_eq!(plan_a.count_sql, plan_b.count_sql);
    assert_eq!(a.statement().arguments, b.statement().arguments);
}

#[test]
fn page_holds_what_the_backend_returned() {
    let mut q = Query::new("users");
    q.paginate(10, 1);
    let plan = paginate(q.statement()).unwrap();
    let page = plan.finish(25, vec!["a", "b", "c"]).unwrap();
    assert_eq!(page.total, 25);
    assert_eq!(page.page, 1);
    assert_eq!(page.per_page, 10);
    assert_eq!(page.items, vec!["a", "b", "c"]);
}

#[test]
fn page_with_too_many_rows_is_an_execution_error() {
    let mut q = Query::new("users");
    q.paginate(2, 1);
    let plan = paginate(q.statement()).unwrap();
    assert_eq!(plan.finish(25, vec![1, 2, 3]).err(), Some(Error::Execution));
    assert!(plan.finish(25, vec![1, 2]).is_ok());
    assert_eq!(Pagination::new(0, 1, 0, vec![1]).err(), Some(Error::Execution));
    let empty: Vec<u8> = Vec::new();
    assert!(Pagination::new(0, 1, 0, empty).is_ok());
}

fn block_on<F: std::future::Future>(future: F) -> F::Output {
    tokio::runtime::Builder::new_current_thread()
        .enable_all()
        .build()
        .unwrap()
        .block_on(future)
}

async fn users_table() -> SqlitePool {
    let pool = SqlitePoolOptions::new()
        .max_connections(1)
        .connect("sqlite::memory:")
        .await
        .unwrap();
    sqlx::query(
        "CREATE TABLE users (uuid TEXT NOT NULL, first_name TEXT NOT NULL, active INTEGER NOT NULL)",
    )
    .execute(&pool)
    .await
    .unwrap();
    pool
}

async fn add_user(pool: &SqlitePool, uuid: &str, first_name: &str, active: bool) -> i64 {
    let mut q = Query::new("users");
    let mut insert = q.insert_as(vec!["uuid", "first_name", "active"]);
    insert
        .bind(Value::text(uuid))
        .bind(Value::text(first_name))
        .bind(Value::Bool(active));
    let sql = insert.to_sql().unwrap();
    let result = sqlx::query_with(&sql, arguments(&insert.statement.arguments))
        .execute(pool)
        .await
        .unwrap();
    result.last_insert_rowid()
}

#[test]
fn paginate_on_a_table_with_25_matching_rows() {
    block_on(async {
        let pool = users_table().await;
        for i in 0..32 {
            add_user(&pool, &format!("u{}", i), "Jane", i < 25).await;
        }
        let mut q = Query::new("users");
        q.select(vec!["uuid"])
            .where_("active", "=", Value::Bool(true))
            .order_by("uuid", Order::ASC)
            .paginate(10, 1);
        let plan = paginate(q.statement()).unwrap();
        let total: i64 = sqlx::query_with(&plan.count_sql, arguments(&q.statement().arguments))
            .fetch_one(&pool)
            .await
            .unwrap()
            .get("total");
        let rows = sqlx::query_with(&plan.items_sql, arguments(&q.statement().arguments))
            .fetch_all(&pool)
            .await
            .unwrap();
        let page = plan.finish(total as u64, rows).unwrap();
        assert_eq!(page.total, 25);
        assert_eq!(page.per_page, 10);
        assert_eq!(page.page, 1);
        assert!(page.items.len() <= 10);
        assert_eq!(page.items.len(), 10);

        let mut other = Query::new("users");
        other
            .select(vec!["uuid", "first_name", "active"])
            .where_("active", "=", Value::Bool(true))
            .paginate(10, 3);
        let plan = paginate(other.statement()).unwrap();
        let total: i64 = sqlx::query_with(&plan.count_sql, arguments(&other.statement().arguments))
            .fetch_one(&pool)
            .await
            .unwrap()
            .get("total");
        let rows = sqlx::query_with(&plan.items_sql, arguments(&other.statement().arguments))
            .fetch_all(&pool)
            .await
            .unwrap();
        let page = plan.finish(total as u64, rows).unwrap();
        assert_eq!(page.total, 25);
        assert_eq!(page.items.len(), 5);
    });
}

#[test]
fn insert_then_fetch_by_generated_identity() {
    block_on(async {
        let pool = users_table().await;
        add_user(&pool, "u0", "John", true).await;
        let rowid = add_user(&pool, "u1", "Jane", true).await;
        add_user(&pool, "u2", "Joan", false).await;
        let fetch = inserted("users", rowid);
        let row = sqlx::query_with(&to_sql(&fetch).unwrap(), arguments(&fetch.arguments))
            .fetch_one(&pool)
            .await
            .unwrap();
        let uuid: String = row.get("uuid");
        let first_name: String = row.get("first_name");
        assert_eq!(uuid, "u1");
        assert_eq!(first_name, "Jane");
    });
}

#[test]
fn like_matches_inside_the_text() {
    block_on(async {
        let pool = users_table().await;
        add_user(&pool, "u0", "Marianne", true).await;
        add_user(&pool, "u1", "Jane", true).await;
        add_user(&pool, "u2", "Anna", false).await;
        let mut q = Query::new("users");
        q.select(vec!["uuid"])
            .where_("first_name", "like", Value::text("ann"))
            .and_where_group(|g| {
                g.where_("active", "=", Value::Bool(true))
                    .or_where("uuid", "=", Value::text("u2"))
            })
            .order_by("uuid", Order::DESC);
        let rows = sqlx::query_with(&q.to_sql().unwrap(), arguments(&q.statement().arguments))
            .fetch_all(&pool)
            .await
            .unwrap();
        let found: Vec<String> = rows.iter().map(|r| r.get("uuid")).collect();
        assert_eq!(found, vec!["u2".to_string(), "u0".to_string()]);
    });
}

#[test]
fn update_and_delete_run_with_their_values_in_order() {
    block_on(async {
        let pool = users_table().await;
        add_user(&pool, "u0", "John", true).await;
        add_user(&pool, "u1", "Jane", true).await;

        let mut q = Query::new("users");
        q.bind(Value::text("Janet")).where_("uuid", "=", Value::text("u1"));
        let mut s = q.into_statement();
        s.query.columns = Some(vec!["first_name".to_string()]);
        let sql = Builder::new(&s.query).update().unwrap();
        assert_eq!(sql, "UPDATE users SET first_name = ? WHERE uuid = ?");
        let done = sqlx::query_with(&sql, arguments(&s.arguments))
            .execute(&pool)
            .await
            .unwrap();
        assert_eq!(done.rows_affected(), 1);

        let mut q = Query::new("users");
        q.where_("first_name", "=", Value::text("Janet"))
            .group(
                QueryPosition::OR,
                flyer_orm::WhereQueryGroup::new().where_("uuid", "=", Value::text("nobody")),
            );
        let sql = Builder::new(&q.statement().query).delete().unwrap();
        let done = sqlx::query_with(&sql, arguments(&q.statement().arguments))
            .execute(&pool)
            .await
            .unwrap();
        assert_eq!(done.rows_affected(), 1);

        let left = sqlx::query("SELECT uuid FROM users")
            .fetch_all(&pool)
            .await
            .unwrap();
        assert_eq!(left.len(), 1);
        let uuid: String = left[0].get("uuid");
        assert_eq!(uuid, "u0");
    });
}
