use easy_sqlx_core::column::Column;
use easy_sqlx_core::condition::Operator;
use easy_sqlx_core::entity::{
    condition_func_name, create_condition_func, create_conditions, create_delete,
    create_delete_builder, create_delete_by_id, create_field_wrapper, create_insert,
    create_insert_builder, create_order_func, create_select_builder, create_select_by_id,
    create_update, create_update_builder,
};
use easy_sqlx_core::page::OrderType;
use easy_sqlx_core::quote::{QuotePolicy, Quoter};
use easy_sqlx_core::table::TableSchema;
use easy_sqlx_core::types::SqlType;
use easy_sqlx_core::value::Value;

fn s(text: &str) -> String {
    text.to_string()
}

fn column(name: &str, scalar: &str, pk: bool, nullable: bool) -> Column {
    Column { name: s(name), typ: SqlType::new(&s(scalar), None).unwrap(), pk, nullable, ..Column::default() }
}

fn user() -> TableSchema {
    let mut name = column("name", "String", false, false);
    name.column = Some(s("abc"));
    TableSchema {
        name: s("user"),
        columns: vec![
            column("id", "i64", true, false),
            name,
            column("tenant", "i32", true, true),
            column("age", "i32", false, true),
        ],
        ..TableSchema::default()
    }
}

fn row(tenant: Option<i32>) -> Vec<Value> {
    vec![Value::from(7i64), Value::from(s("ann")), Value::from(tenant), Value::from(Some(30i32))]
}

fn base() -> Vec<Operator> {
    vec![
        Operator::In,
        Operator::Eq,
        Operator::Neq,
        Operator::Lt,
        Operator::Le,
        Operator::Gt,
        Operator::Ge,
    ]
}

#[test]
fn conditions_offered_by_a_column() {
    let plain = column("id", "i64", true, false);
    assert_eq!(create_conditions(&plain, &s("i64")), base());
    let mut text = base();
    text.push(Operator::Like);
    assert_eq!(create_conditions(&plain, &s("String")), text);
    let open = column("age", "i32", false, true);
    let mut nullable = base();
    nullable.push(Operator::IsNull);
    nullable.push(Operator::IsNotNull);
    assert_eq!(create_conditions(&open, &s("i32")), nullable);
    text.push(Operator::IsNull);
    text.push(Operator::IsNotNull);
    assert_eq!(create_conditions(&open, &s("String")), text);
}

#[test]
fn condition_names_and_conditions() {
    assert_eq!(condition_func_name(&s("name"), Operator::Like), "name_like");
    assert_eq!(condition_func_name(&s("age"), Operator::IsNotNull), "age_is_not_null");
    let quoter = Quoter::new(b'"', b'"', QuotePolicy::QuotePolicyAlways);
    let cond = create_condition_func(&s("abc"), Operator::Ge, Value::from(3i32));
    assert_eq!(cond.sql(2, &quoter), (s("\"abc\" >= $2"), 3));
    let cond = create_condition_func(&s("id"), Operator::In, Value::from(vec![1i64, 2]));
    assert_eq!(cond.sql(1, &quoter), (s("\"id\" in ($1,$2)"), 3));
}

#[test]
fn field_pairs_and_orderings() {
    let t = user();
    let p = create_field_wrapper(&t.columns[1], Value::from(s("x")));
    assert_eq!((p.name.as_str(), p.value), ("abc", Value::Text(Some(s("x")))));
    let (asc, desc, plain) = create_order_func(&t.columns[1]);
    assert!(asc.field == "name" && matches!(asc.order_type, OrderType::Asc));
    assert!(desc.field == "name" && matches!(desc.order_type, OrderType::Desc));
    assert!(plain.field == "name" && matches!(plain.order_type, OrderType::Unspecified));
}

#[test]
fn insert_takes_all_columns() {
    let q = create_insert(&user(), &row(Some(1))).unwrap().build();
    assert_eq!(
        q.sql,
        "insert into \"public\".\"user\" (\"id\",\"abc\",\"tenant\",\"age\") values ($1,$2,$3,$4)"
    );
    assert_eq!(q.args, row(Some(1)));
    assert!(create_insert(&user(), &vec![Value::from(7i64)]).is_none());
}

#[test]
fn update_sets_other_columns_and_finds_by_key() {
    let q = create_update(&user(), &row(None)).unwrap().build();
    assert_eq!(
        q.sql,
        "update \"public\".\"user\" set \"abc\"=$1,\"age\"=$2  where \"id\" = $3 and \"tenant\" = $4"
    );
    assert_eq!(
        q.args,
        vec![Value::from(s("ann")), Value::from(Some(30i32)), Value::from(7i64), Value::Int(None)]
    );
    assert!(create_update(&user(), &vec![]).is_none());
}

#[test]
fn delete_leaves_empty_keys_out() {
    let q = create_delete(&user(), &row(Some(4))).unwrap().build();
    assert_eq!(q.sql, "delete from \"public\".\"user\"  where \"id\" = $1 and \"tenant\" = $2");
    assert_eq!(q.args, vec![Value::from(7i64), Value::Int(Some(4))]);
    let q = create_delete(&user(), &row(None)).unwrap().build();
    assert_eq!(q.sql, "delete from \"public\".\"user\"  where \"id\" = $1");
    assert_eq!(q.args, vec![Value::from(7i64)]);
    let mut longer = row(None);
    longer.push(Value::from(true));
    assert!(create_delete(&user(), &longer).is_none());
}

#[test]
fn rows_are_found_by_their_key() {
    let ids = vec![Value::from(7i64), Value::from(4i32)];
    let q = create_delete_by_id(&user(), &ids).unwrap().build();
    assert_eq!(q.sql, "delete from \"public\".\"user\"  where \"id\" = $1 and \"tenant\" = $2");
    assert_eq!(q.args, ids);
    let q = create_select_by_id(&user(), &ids).unwrap().generate_query_as();
    assert_eq!(
        q.sql,
        "select \"id\",\"abc\" as \"name\",\"tenant\",\"age\" from \"public\".\"user\"  where \"id\" = $1 and \"tenant\" = $2  "
    );
    assert_eq!(q.args, ids);
    assert!(create_delete_by_id(&user(), &vec![Value::from(7i64)]).is_none());
    assert!(create_select_by_id(&user(), &vec![]).is_none());
    let mut three = ids.clone();
    three.push(Value::from(1i32));
    assert!(create_select_by_id(&user(), &three).is_none());
    assert!(create_delete_by_id(&user(), &three).is_none());
}

#[test]
fn fresh_builders() {
    assert_eq!(create_insert_builder(user()).build().sql, "insert into \"public\".\"user\" () values ()");
    assert_eq!(create_update_builder(user()).build().sql, "update \"public\".\"user\" set  ");
    assert_eq!(create_delete_builder(user()).build().sql, "delete from \"public\".\"user\" ");
    assert!(create_select_builder(user()).generate_query_as().sql.starts_with("select \"id\","));
    assert!(Value::Int(None).is_null() && !Value::Int(Some(0)).is_null() && !Value::Array(vec![]).is_null());
}
