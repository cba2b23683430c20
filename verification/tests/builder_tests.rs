use easy_sqlx_core::builder::{
    empty_page, new, DeleteBuilder, InsertBuilder, SelectBuilder, UpdateBuilder,
};
use easy_sqlx_core::column::Column;
use easy_sqlx_core::condition::{Condition, Operator, Where, WhereAppend};
use easy_sqlx_core::page::{Order, OrderType, PageRequest, PageResult};
use easy_sqlx_core::table::TableSchema;
use easy_sqlx_core::types::SqlType;
use easy_sqlx_core::value::{Pair, Value};

fn s(text: &str) -> String {
    text.to_string()
}

fn column(name: &str, column: Option<&str>) -> Column {
    Column {
        name: s(name),
        column: column.map(s),
        typ: SqlType::new(&s("i64"), None).unwrap(),
        ..Column::default()
    }
}

fn user() -> TableSchema {
    TableSchema {
        name: s("user"),
        columns: vec![column("id", None), column("name", Some("abc"))],
        ..TableSchema::default()
    }
}

fn pair(name: &str, value: i64) -> Pair {
    Pair { name: s(name), value: Value::Long(Some(value)) }
}

fn eq(name: &str, value: i64) -> Condition {
    Condition::Condition(pair(name, value), Operator::Eq)
}

fn ids(values: &[i64]) -> Condition {
    Condition::Condition(
        Pair { name: s("id"), value: Value::Array(values.iter().map(|v| Value::Long(Some(*v))).collect()) },
        Operator::In,
    )
}

#[test]
fn order_words() {
    assert_eq!(OrderType::Asc.sql(), "asc");
    assert_eq!(OrderType::Desc.sql(), "desc");
    assert_eq!(OrderType::Unspecified.sql(), "");
    let o = Order::asc(s("id"));
    assert!(matches!(o.order_type, OrderType::Asc) && o.field == "id");
    assert!(matches!(Order::desc(s("id")).order_type, OrderType::Desc));
    assert!(matches!(Order::new(s("id")).order_type, OrderType::Unspecified));
    assert_eq!(o.clone().field, "id");
}

#[test]
fn page_request_defaults() {
    let p = PageRequest::new(0, 0);
    assert_eq!((p.get_page_size(), p.get_page_no(), p.total_page_info), (20, 1, false));
    let p = PageRequest::with_total(50, 3);
    assert_eq!((p.get_page_size(), p.get_page_no(), p.total_page_info), (50, 3, true));
}

#[test]
fn page_result_counts_pages() {
    let mut r: PageResult<i32> = empty_page(&PageRequest::new(10, 2));
    assert_eq!((r.page_size, r.page_no, r.total, r.page_count, r.records.len()), (10, 2, 0, 0, 0));
    r.set_total(0);
    assert_eq!((r.total, r.page_count), (0, 0));
    r.set_total(1);
    assert_eq!((r.total, r.page_count), (1, 1));
    r.set_total(10);
    assert_eq!((r.total, r.page_count), (10, 1));
    r.set_total(11);
    assert_eq!((r.total, r.page_count), (11, 2));
    r.set_total(usize::MAX);
    assert_eq!(r.page_count, usize::MAX / 10 + 1);
    let mut none: PageResult<i32> = PageResult::default();
    none.set_total(0);
    assert_eq!(none.page_count, 0);
}

#[test]
fn insert_statements() {
    let schema = new(s(""));
    assert_eq!(
        schema.sql_insert(&user()),
        "insert into \"public\".\"user\" (\"id\",\"abc\") values ($1,$2)"
    );
    assert_eq!(
        schema.sql_insert_columns(&user(), &vec![s("abc")]),
        "insert into \"public\".\"user\" (\"abc\") values ($1)"
    );
    assert_eq!(schema.sql_insert_columns(&user(), &vec![]), "insert into \"public\".\"user\" () values ()");
}

#[test]
fn insert_builder_binds_columns_in_order() {
    let mut b = InsertBuilder::new(user()).with_default_schema("app");
    b.add_column(pair("id", 7));
    b.add_column(Pair { name: s("abc"), value: Value::Text(Some(s("x"))) });
    let q = b.build();
    assert_eq!(q.sql, "insert into \"app\".\"user\" (\"id\",\"abc\") values ($1,$2)");
    assert_eq!(q.args, vec![Value::Long(Some(7)), Value::Text(Some(s("x")))]);
}

#[test]
fn update_numbering_goes_on_into_the_condition() {
    let schema = new(s(""));
    let wh = Where::new(eq("id", 7)).and(ids(&[1, 2]));
    assert_eq!(
        schema.sql_update_columns(&user(), &vec![s("abc"), s("age")], Some(wh)),
        "update \"public\".\"user\" set \"abc\"=$1,\"age\"=$2  where \"id\" = $3 and \"id\" in ($4,$5)"
    );
    assert_eq!(
        schema.sql_update_columns(&user(), &vec![s("abc")], None),
        "update \"public\".\"user\" set \"abc\"=$1 "
    );
    assert_eq!(
        schema.sql_update_columns(&user(), &vec![s("abc")], Some(Where::default())),
        "update \"public\".\"user\" set \"abc\"=$1 "
    );
}

#[test]
fn update_builder_binds_columns_then_condition() {
    let b = UpdateBuilder::new(user())
        .set_column(pair("abc", 1))
        .set_column(pair("age", 2))
        .and(eq("id", 3))
        .or(Where::new(eq("id", 4)));
    assert!(b.fits());
    let q = b.build();
    assert_eq!(
        q.sql,
        "update \"public\".\"user\" set \"abc\"=$1,\"age\"=$2  where \"id\" = $3 or \"id\" = $4"
    );
    assert_eq!(
        q.args,
        vec![Value::Long(Some(1)), Value::Long(Some(2)), Value::Long(Some(3)), Value::Long(Some(4))]
    );
}

#[test]
fn delete_statements() {
    let schema = new(s(""));
    assert_eq!(schema.sql_delete(&user(), None), "delete from \"public\".\"user\" ");
    let q = DeleteBuilder::new(user()).with_default_schema("app").and(eq("id", 3)).and(eq("age", 4)).build();
    assert_eq!(q.sql, "delete from \"app\".\"user\"  where \"id\" = $1 and \"age\" = $2");
    assert_eq!(q.args, vec![Value::Long(Some(3)), Value::Long(Some(4))]);
    let q = DeleteBuilder::new(user()).or(Where::default()).build();
    assert_eq!(q.sql, "delete from \"public\".\"user\" ");
    assert!(q.args.is_empty());
    assert!(DeleteBuilder::new(user()).or(eq("id", 1)).and(Where::new(eq("id", 2))).fits());
}

#[test]
fn count_statement() {
    let schema = new(s(""));
    assert_eq!(schema.sql_count(&user(), None), "select count(0) as \"count\" from \"public\".\"user\" ");
    let q = SelectBuilder::new(user()).and(eq("id", 3)).count();
    assert_eq!(q.sql, "select count(0) as \"count\" from \"public\".\"user\"  where \"id\" = $1");
    assert_eq!(q.args, vec![Value::Long(Some(3))]);
}

#[test]
fn select_statements() {
    let q = SelectBuilder::new(user()).generate_query_as();
    assert_eq!(q.sql, "select \"id\",\"abc\" as \"name\" from \"public\".\"user\"   ");
    assert!(q.args.is_empty());
    let b = SelectBuilder::new(user())
        .and(eq("id", 3))
        .or(eq("id", 4))
        .order_by(Order::desc(s("id")))
        .order_by(Order::new(s("abc")));
    assert!(b.fits());
    let q = b.generate_query_as();
    assert_eq!(
        q.sql,
        "select \"id\",\"abc\" as \"name\" from \"public\".\"user\"  where \"id\" = $1 or \"id\" = $2  order by \"id\" desc, \"abc\"  "
    );
    assert_eq!(q.args, vec![Value::Long(Some(3)), Value::Long(Some(4))]);
    let q = b.generate_page_query_as(&PageRequest::new(10, 3));
    assert!(q.sql.ends_with(" order by \"id\" desc, \"abc\"  offset 20 limit 10"));
    let q = b.generate_query_scalar("abc");
    assert!(q.sql.starts_with("select \"abc\" from \"public\".\"user\"  where "));
    let q = b.generate_query_page_scalar("abc", &PageRequest::new(0, 0));
    assert!(q.sql.starts_with("select \"abc\" from "));
    assert!(q.sql.ends_with(" offset 0 limit 20"));
    assert_eq!(q.args.len(), 2);
}

#[test]
fn select_builder_joins_where_values() {
    let q = SelectBuilder::new(user())
        .with_default_schema("app")
        .and(Where::new(eq("a", 1)).or(eq("b", 2)))
        .and(eq("c", 3))
        .generate_query_as();
    assert_eq!(
        q.sql,
        "select \"id\",\"abc\" as \"name\" from \"app\".\"user\"  where (\"a\" = $1 or \"b\" = $2) and \"c\" = $3  "
    );
    assert_eq!(q.args, vec![Value::Long(Some(1)), Value::Long(Some(2)), Value::Long(Some(3))]);
    let q = SelectBuilder::new(user()).or(Where::new(eq("a", 1))).generate_query_as();
    assert_eq!(q.args, vec![Value::Long(Some(1))]);
}

#[test]
fn try_build_gives_the_same_statement() {
    let d = DeleteBuilder::new(user()).and(eq("id", 3));
    assert_eq!(d.try_build(), Some(d.build()));
    let u = UpdateBuilder::new(user()).set_column(pair("abc", 1)).and(eq("id", 3));
    assert_eq!(u.try_build(), Some(u.build()));
    let q = SelectBuilder::new(user()).and(eq("id", 3));
    assert_eq!(q.try_generate_query_as(), Some(q.generate_query_as()));
}
