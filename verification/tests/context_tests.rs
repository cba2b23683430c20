use easy_sqlx_core::column::Column;
use easy_sqlx_core::context::Context;
use easy_sqlx_core::error::SchemaError;
use easy_sqlx_core::index::Index;
use easy_sqlx_core::pg_schema::{sql_create_table, PgSchema};
use easy_sqlx_core::postgres::convert_sql_type;
use easy_sqlx_core::table::TableSchema;
use easy_sqlx_core::types::SqlType;

fn s(text: &str) -> String {
    text.to_string()
}

fn typ(name: &str, len: Option<isize>) -> SqlType {
    SqlType { name: s(name), len, len2: None, fixed_len: None }
}

fn col(name: &str, t: SqlType) -> Column {
    Column { name: s(name), typ: t, ..Column::default() }
}

fn ctx() -> Context {
    Context::new(s(""))
}

#[test]
fn context_default_namespace_is_public() {
    assert_eq!(ctx().get_default_schema(), "public");
    assert_eq!(Context::default().get_default_schema(), "public");
    assert_eq!(Context::new(s("app")).get_default_schema(), "app");
}

#[test]
fn context_quotes_with_double_quotes() {
    assert_eq!(ctx().quote(&s("public.user")), "\"public\".\"user\"");
}

#[test]
fn table_name_gets_default_namespace() {
    assert_eq!(ctx().table_name_with_schema(&s("user")), "public.user");
    assert_eq!(ctx().table_name_with_schema(&s("app.user")), "app.user");
    assert_eq!(Context::new(s("app")).table_name_with_schema(&s("user")), "app.user");
}

#[test]
fn table_names_compare_with_namespace_and_without_case() {
    let c = ctx();
    assert!(c.is_table_name_equal(&s("User"), &s("public.user")));
    assert!(c.is_table_name_equal(&s("user"), &s("USER")));
    assert!(!c.is_table_name_equal(&s("user"), &s("app.user")));
    assert!(!c.is_table_name_equal(&s("user"), &s("users")));
}

#[test]
fn column_definition_with_inline_primary_key() {
    let mut id = col("id", typ("BIGINT", None));
    id.pk = true;
    assert_eq!(ctx().sql_column(&id, true, None, convert_sql_type), "\"id\" BIGINT PRIMARY KEY NOT NULL ");
    assert_eq!(ctx().sql_column(&id, false, None, convert_sql_type), "\"id\" BIGINT NOT NULL ");
}

#[test]
fn column_definition_with_autoincrement_keyword() {
    let mut id = col("id", typ("BIGINT", None));
    id.pk = true;
    id.autoincr = true;
    assert_eq!(
        ctx().sql_column(&id, true, Some("AUTOINCREMENT"), convert_sql_type),
        "\"id\" BIGSERIAL PRIMARY KEY AUTOINCREMENT NOT NULL "
    );
    assert_eq!(ctx().sql_column(&id, true, None, convert_sql_type), "\"id\" BIGSERIAL PRIMARY KEY NOT NULL ");
    id.autoincr = false;
    assert_eq!(ctx().sql_column(&id, false, Some("AUTOINCREMENT"), convert_sql_type), "\"id\" BIGINT NOT NULL ");
}

#[test]
fn column_definition_with_default_and_null() {
    let mut n = col("n", typ("INT", None));
    n.default = Some(s("0"));
    n.nullable = true;
    n.column = Some(s("count"));
    assert_eq!(ctx().sql_column(&n, true, None, convert_sql_type), "\"count\" INT DEFAULT 0 NULL ");
}

#[test]
fn add_column_statement() {
    let name = col("name", typ("VARCHAR", Some(30)));
    assert_eq!(
        ctx().sql_add_column(&s("user"), &name, None, convert_sql_type),
        "ALTER TABLE \"public\".\"user\" ADD COLUMN \"name\" VARCHAR(30) NOT NULL "
    );
}

#[test]
fn drop_column_statement() {
    assert_eq!(
        ctx().sql_drop_column(&s("app.user"), &s("name")),
        "ALTER TABLE \"app\".\"user\" DROP COLUMN IF EXISTS \"name\""
    );
}

#[test]
fn alter_column_emits_nothing_for_equal_columns() {
    let a = col("name", typ("VARCHAR", Some(30)));
    assert_eq!(ctx().sql_alter_column(&s("user"), &a, &a.clone(), convert_sql_type, false), Ok(vec![]));
    let implied = col("name", typ("VARCHAR", None));
    let explicit = col("name", typ("VARCHAR", Some(255)));
    assert_eq!(ctx().sql_alter_column(&s("user"), &implied, &explicit, convert_sql_type, false), Ok(vec![]));
}

#[test]
fn alter_column_nullability_alone_is_one_statement() {
    let old = col("name", typ("VARCHAR", Some(30)));
    let mut new = old.clone();
    new.nullable = true;
    assert_eq!(
        ctx().sql_alter_column(&s("user"), &old, &new, convert_sql_type, false),
        Ok(vec![s("ALTER TABLE \"public\".\"user\" ALTER COLUMN name DROP NOT NULL")])
    );
    assert_eq!(
        ctx().sql_alter_column(&s("user"), &new, &old, convert_sql_type, false),
        Ok(vec![s("ALTER TABLE \"public\".\"user\" ALTER COLUMN name SET NOT NULL")])
    );
    assert_eq!(
        ctx().sql_alter_column(&s("user"), &new, &old, convert_sql_type, true),
        Ok(vec![s("ALTER TABLE \"public\".\"user\" ALTER COLUMN name SET NOT NULL")])
    );
}

#[test]
fn alter_column_length_change_retypes_with_new_length() {
    let old = col("name", typ("VARCHAR", Some(30)));
    let new = col("name", typ("VARCHAR", Some(50)));
    assert_eq!(
        ctx().sql_alter_column(&s("user"), &old, &new, convert_sql_type, false),
        Ok(vec![s("ALTER TABLE \"public\".\"user\" ALTER COLUMN name TYPE VARCHAR(50)")])
    );
    let old = col("code", typ("NVARCHAR", Some(3)));
    let new = col("code", typ("NVARCHAR", Some(4)));
    assert_eq!(
        ctx().sql_alter_column(&s("user"), &old, &new, convert_sql_type, false),
        Ok(vec![s("ALTER TABLE \"public\".\"user\" ALTER COLUMN code TYPE VARCHAR(4)")])
    );
}

#[test]
fn alter_column_full_type_change() {
    let old = col("n", typ("INT", None));
    let new = col("n", typ("BIGINT", None));
    assert_eq!(
        ctx().sql_alter_column(&s("user"), &old, &new, convert_sql_type, false),
        Ok(vec![s("ALTER TABLE \"public\".\"user\" ALTER COLUMN n TYPE BIGINT")])
    );
}

#[test]
fn alter_column_missing_length() {
    let old = col("n", typ("VARCHAR", Some(10)));
    let new = col("n", typ("VARCHAR", None));
    assert_eq!(
        ctx().sql_alter_column(&s("user"), &old, &new, convert_sql_type, false),
        Err(SchemaError::MissingLength { column: s("n"), table: s("\"public\".\"user\"") })
    );
    let old = col("c", typ("CHAR", Some(2)));
    let new = col("c", typ("NCHAR", None));
    assert_eq!(
        ctx().sql_alter_column(&s("user"), &old, &new, convert_sql_type, false),
        Ok(vec![s("ALTER TABLE \"public\".\"user\" ALTER COLUMN c TYPE CHAR(255)")])
    );
    let old = col("c", typ("CHAR", Some(2)));
    let mut new = col("c", typ("CHAR", Some(2)));
    new.col_type = Some(s("char"));
    assert_eq!(
        ctx().sql_alter_column(&s("user"), &old, &new, convert_sql_type, false),
        Err(SchemaError::MissingLength { column: s("c"), table: s("\"public\".\"user\"") })
    );
}

#[test]
fn alter_column_without_length_is_no_fault_of_other_types() {
    let old = col("n", typ("TEXT", Some(10)));
    let new = col("n", typ("TEXT", None));
    assert_eq!(
        ctx().sql_alter_column(&s("user"), &old, &new, convert_sql_type, false),
        Ok(vec![s("ALTER TABLE \"public\".\"user\" ALTER COLUMN n TYPE TEXT")])
    );
    let old = col("id", typ("INT", None));
    let mut new = col("id", typ("INT", None));
    new.autoincr = true;
    assert_eq!(
        ctx().sql_alter_column(&s("user"), &old, &new, convert_sql_type, true),
        Ok(vec![s("ALTER TABLE \"public\".\"user\" ALTER COLUMN id TYPE SERIAL")])
    );
}

#[test]
fn alter_column_writes_both_lengths() {
    let old = col("price", SqlType { name: s("NUMERIC"), len: Some(10), len2: Some(2), fixed_len: None });
    let new = col("price", SqlType { name: s("NUMERIC"), len: Some(12), len2: Some(4), fixed_len: None });
    assert_eq!(
        ctx().sql_alter_column(&s("user"), &old, &new, convert_sql_type, false),
        Ok(vec![s("ALTER TABLE \"public\".\"user\" ALTER COLUMN price TYPE NUMERIC(12, 4)")])
    );
}

fn shouted(col: &Column) -> String {
    format!("<{}>", col.typ.name)
}

#[test]
fn column_statements_write_the_type_as_the_caller_says() {
    let name = col("name", typ("VARCHAR", Some(30)));
    assert_eq!(ctx().sql_column(&name, false, None, shouted), "\"name\" <VARCHAR> NOT NULL ");
    assert_eq!(
        ctx().sql_add_column(&s("user"), &name, None, shouted),
        "ALTER TABLE \"public\".\"user\" ADD COLUMN \"name\" <VARCHAR> NOT NULL "
    );
    let longer = col("name", typ("VARCHAR", Some(50)));
    assert_eq!(ctx().sql_alter_column(&s("user"), &name, &longer, shouted, false), Ok(vec![]));
    let other = col("name", typ("TEXT", None));
    assert_eq!(
        ctx().sql_alter_column(&s("user"), &name, &other, shouted, false),
        Ok(vec![s("ALTER TABLE \"public\".\"user\" ALTER COLUMN name TYPE <TEXT>")])
    );
}

#[test]
fn alter_column_default_changes() {
    let old = col("n", typ("INT", None));
    let mut new = old.clone();
    new.default = Some(s("7"));
    assert_eq!(
        ctx().sql_alter_column(&s("user"), &old, &new, convert_sql_type, false),
        Ok(vec![s("ALTER TABLE \"public\".\"user\" ALTER COLUMN n SET DEFAULT 7")])
    );
    assert_eq!(
        ctx().sql_alter_column(&s("user"), &new, &old, convert_sql_type, false),
        Ok(vec![s("ALTER TABLE \"public\".\"user\" ALTER COLUMN n DROP DEFAULT")])
    );
    assert_eq!(ctx().sql_alter_column(&s("user"), &old, &new, convert_sql_type, true), Ok(vec![]));
}

#[test]
fn alter_column_all_three_in_order() {
    let mut old = col("n", typ("INT", None));
    old.column = Some(s("num"));
    let mut new = col("n", typ("BIGINT", None));
    new.default = Some(s("1"));
    new.nullable = true;
    assert_eq!(
        ctx().sql_alter_column(&s("user"), &old, &new, convert_sql_type, false),
        Ok(vec![
            s("ALTER TABLE \"public\".\"user\" ALTER COLUMN num TYPE BIGINT"),
            s("ALTER TABLE \"public\".\"user\" ALTER COLUMN num SET DEFAULT 1"),
            s("ALTER TABLE \"public\".\"user\" ALTER COLUMN num DROP NOT NULL"),
        ])
    );
}

#[test]
fn drop_table_statement() {
    assert_eq!(ctx().sql_drop_table(&s("user")), "DROP TABLE IF EXISTS \"public\".\"user\"");
}

#[test]
fn create_and_drop_index_statements() {
    let idx = Index { name: s("user_uqe_a"), columns: vec![s("a"), s("b")], unique: true };
    assert_eq!(
        ctx().sql_create_index(&s("user"), &idx),
        Some(s("CREATE UNIQUE INDEX \"user_uqe_a\" ON \"public\".\"user\" (a,b)"))
    );
    let plain = Index { name: s("i"), columns: vec![s("a")], unique: false };
    assert_eq!(
        ctx().sql_create_index(&s("app.user"), &plain),
        Some(s("CREATE INDEX \"i\" ON \"app\".\"user\" (a)"))
    );
    let empty = Index { name: s("i"), columns: vec![], unique: false };
    assert_eq!(ctx().sql_create_index(&s("user"), &empty), None);
    assert_eq!(ctx().sql_drop_index(&s("app.i")), "DROP INDEX IF EXISTS \"app\".\"i\"");
    assert_eq!(ctx().sql_drop_index(&s("i")), "DROP INDEX IF EXISTS \"public\".\"i\"");
    let schema = PgSchema::new(ctx());
    let t = TableSchema { name: s("user"), schema: Some(s("app")), ..TableSchema::default() };
    assert_eq!(schema.sql_drop_index(&t, &plain), Some(s("DROP INDEX IF EXISTS \"app\".\"i\"")));
    assert_eq!(schema.sql_drop_index(&t, &empty), None);
    assert_eq!(schema.sql_create_index(&t, &empty), None);
    assert_eq!(schema.sql_create_index(&t, &plain), Some(s("CREATE INDEX \"i\" ON \"app\".\"user\" (a)")));
}

#[test]
fn create_table_with_one_primary_key_column() {
    let mut id = col("id", typ("BIGINT", None));
    id.pk = true;
    let name = col("name", typ("VARCHAR", Some(30)));
    let t = TableSchema { name: s("user"), columns: vec![id, name], ..TableSchema::default() };
    assert_eq!(
        sql_create_table(&ctx(), &t),
        Ok(vec![s(
            "CREATE TABLE IF NOT EXISTS \"public\".\"user\" (\"id\" BIGINT PRIMARY KEY NOT NULL ,\"name\" VARCHAR(30) NOT NULL )"
        )])
    );
}

#[test]
fn create_table_with_composite_primary_key() {
    let mut a = col("a", typ("INT", None));
    a.pk = true;
    let mut b = col("b", typ("INT", None));
    b.pk = true;
    b.column = Some(s("bee"));
    let c = col("c", typ("TEXT", None));
    let t = TableSchema {
        name: s("pair"),
        schema: Some(s("app")),
        columns: vec![a, b, c],
        ..TableSchema::default()
    };
    assert_eq!(
        PgSchema::new(ctx()).sql_create_table(&t),
        Ok(vec![s(
            "CREATE TABLE IF NOT EXISTS \"app\".\"pair\" (\"a\" INT NOT NULL ,\"bee\" INT NOT NULL ,\"c\" TEXT NOT NULL , PRIMARY KEY (a,bee))"
        )])
    );
}

#[test]
fn create_table_without_columns_is_refused() {
    let t = TableSchema { name: s("user"), ..TableSchema::default() };
    assert_eq!(sql_create_table(&ctx(), &t), Err(SchemaError::EmptyTableDefinition(s("user"))));
}
