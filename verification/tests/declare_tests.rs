use easy_sqlx_core::column::Column;
use easy_sqlx_core::declare::{
    declare_table, derive_table, is_option, parse_column_attrs, parse_table_attrs,
    parse_type_options, TypePath,
};
use easy_sqlx_core::error::SchemaError;
use easy_sqlx_core::index::Index;
use easy_sqlx_core::sync::sync_tables;
use easy_sqlx_core::table::TableSchema;
use easy_sqlx_core::value_parser::Array;

fn s(text: &str) -> String {
    text.to_string()
}

fn plain(path: &str) -> TypePath {
    TypePath { path: s(path), argument: None }
}

fn wrapped(path: &str, inner: TypePath) -> TypePath {
    TypePath { path: s(path), argument: Some(Box::new(inner)) }
}

fn index(name: &str, columns: &[&str], unique: bool) -> Index {
    Index { name: s(name), columns: columns.iter().map(|c| s(c)).collect(), unique }
}

fn field(name: &str, ty: TypePath, attrs: Vec<Column>) -> Column {
    parse_column_attrs(&s(name), &ty, &attrs).unwrap().unwrap()
}

#[test]
fn option_paths() {
    assert!(is_option("Option"));
    assert!(is_option("std::option::Option"));
    assert!(is_option("core::option::Option"));
    assert!(!is_option("option"));
    assert!(!is_option("Vec"));
}

#[test]
fn option_layers_are_counted() {
    assert_eq!(parse_type_options(&plain("String")), (0, s("String")));
    assert_eq!(parse_type_options(&wrapped("Option", plain("i64"))), (1, s("i64")));
    assert_eq!(
        parse_type_options(&wrapped("Option", wrapped("std::option::Option", plain("chrono::NaiveDateTime")))),
        (2, s("chrono::NaiveDateTime"))
    );
    assert_eq!(parse_type_options(&wrapped("Vec", plain("u8"))), (0, s("Vec")));
    assert_eq!(parse_type_options(&plain("Option")), (0, s("Option")));
}

#[test]
fn column_of_a_plain_field() {
    let c = field("id", plain("i64"), vec![]);
    assert_eq!(c.name, "id");
    assert_eq!((c.typ.name.as_str(), c.typ.len), ("BIGINT", None));
    assert!(!c.nullable && !c.pk && !c.autoincr);
    let c = field("created_at", wrapped("Option", plain("NaiveDateTime")), vec![]);
    assert!(c.nullable);
    assert_eq!((c.typ.name.as_str(), c.typ.len), ("TIMESTAMP", Some(6)));
}

#[test]
fn column_attributes_are_merged() {
    let mut attr = Column::default();
    attr.pk = true;
    attr.typ.len = Some(30);
    attr.column = Some(s("abc"));
    let c = field("name", plain("String"), vec![attr.clone()]);
    assert!(c.pk);
    assert_eq!(c.column, Some(s("abc")));
    assert_eq!((c.typ.name.as_str(), c.typ.len), ("VARCHAR", Some(30)));
    let c = field("n", plain("i32"), vec![attr]);
    assert_eq!((c.typ.name.as_str(), c.typ.len), ("INT", None));
    let mut second = Column::default();
    second.column = Some(s("other"));
    second.comment = Some(s("note"));
    second.typ.len = Some(40);
    let mut first = Column::default();
    first.column = Some(s("abc"));
    let c = field("name", plain("String"), vec![first, second]);
    assert_eq!(c.column, Some(s("abc")));
    assert_eq!(c.comment, Some(s("note")));
    assert_eq!(c.typ.len, Some(40));
}

#[test]
fn ignored_field_declares_no_column() {
    let mut attr = Column::default();
    attr.ignore = true;
    assert!(parse_column_attrs(&s("skip"), &plain("String"), &vec![attr.clone()]).unwrap().is_none());
    let mut pk = Column::default();
    pk.pk = true;
    assert!(parse_column_attrs(&s("skip"), &plain("String"), &vec![pk, attr]).unwrap().is_none());
}

#[test]
fn field_of_unknown_type_is_refused() {
    assert_eq!(
        parse_column_attrs(&s("shape"), &wrapped("Option", plain("Geometry")), &vec![]).err(),
        Some(SchemaError::UnknownScalarType(s("Geometry")))
    );
    assert_eq!(
        parse_column_attrs(&s("data"), &wrapped("Vec", plain("u8")), &vec![]).err(),
        Some(SchemaError::UnknownScalarType(s("Vec")))
    );
}

#[test]
fn table_attributes_are_merged_and_indexes_named() {
    let mut first = TableSchema::default();
    first.schema = Some(s("app"));
    first.indexes = Some(vec![index("", &["id"], false)]);
    let mut second = TableSchema::default();
    second.name = s("account");
    second.recreate = Some(s("v1"));
    second.indexes = Some(vec![index("", &["id"], false)]);
    let t = parse_table_attrs(vec![first, second], vec![index("mine", &["id"], true)], s("user")).unwrap();
    assert_eq!(t.name, "account");
    assert_eq!(t.schema, Some(s("app")));
    assert_eq!(t.recreate, Some(s("v1")));
    let names: Vec<String> = t.indexes.unwrap().iter().map(|i| i.name.clone()).collect();
    assert_eq!(names, vec![s("account_idx_id"), s("account_idx_1_id"), s("account_uqe_mine")]);
}

#[test]
fn table_without_name_gets_the_default() {
    let t = parse_table_attrs(vec![], vec![index("", &["a"], false)], s("user")).unwrap();
    assert_eq!(t.name, "user");
    assert_eq!(t.indexes.unwrap()[0].name, "user_idx_a");
    let t = parse_table_attrs(vec![], vec![], s("user")).unwrap();
    assert!(t.indexes.is_none());
}

#[test]
fn taken_index_name_is_refused() {
    assert_eq!(
        parse_table_attrs(vec![], vec![index("x", &["a"], false), index("x", &["b"], false)], s("user")).err(),
        Some(SchemaError::DuplicateIndexName(s("user_idx_x")))
    );
    let mut attrs = TableSchema::default();
    attrs.indexes = Some(vec![index("x", &["a"], false), index("x", &["b"], false)]);
    assert_eq!(
        parse_table_attrs(vec![attrs], vec![], s("user")).err(),
        Some(SchemaError::DuplicateIndexName(s("user_idx_x")))
    );
}

#[test]
fn index_over_undeclared_column_is_refused() {
    let columns = vec![field("id", plain("i64"), vec![])];
    assert_eq!(
        declare_table(s("user"), vec![], vec![index("", &["id", "nope"], false)], columns).err(),
        Some(SchemaError::UndeclaredIndexColumn(s("nope")))
    );
    assert_eq!(
        declare_table(s("user"), vec![], vec![index("x", &["id"], false), index("x", &["nope"], false)], vec![]).err(),
        Some(SchemaError::DuplicateIndexName(s("user_idx_x")))
    );
}

#[test]
fn derived_table_is_named_in_snake_case() {
    let columns = vec![field("id", plain("i64"), vec![]), field("name", plain("String"), vec![])];
    let t = derive_table("UserAccount", vec![], vec![index("", &["name"], true)], columns).unwrap();
    assert_eq!(t.name, "user_account");
    assert_eq!(t.columns.len(), 2);
    assert_eq!(t.indexes.as_ref().unwrap()[0].name, "user_account_uqe_name");
    let mut attrs = TableSchema::default();
    attrs.name = s("people");
    let t = derive_table("UserAccount", vec![attrs], vec![], vec![]).unwrap();
    assert_eq!(t.name, "people");
}

#[test]
fn derived_table_reconciles() {
    let mut pk = Column::default();
    pk.pk = true;
    let mut len = Column::default();
    len.typ.len = Some(30);
    let columns = vec![
        field("id", plain("i64"), vec![pk]),
        field("name", plain("String"), vec![len]),
        field("created_at", wrapped("Option", plain("NaiveDateTime")), vec![]),
    ];
    let t = derive_table("User", vec![], vec![], columns).unwrap();
    assert_eq!(
        sync_tables(&vec![t], &vec![], "").statements,
        vec![s("CREATE TABLE IF NOT EXISTS \"public\".\"user\" (\"id\" BIGINT PRIMARY KEY NOT NULL ,\"name\" VARCHAR(30) NOT NULL ,\"created_at\" TIMESTAMP(6) NULL )")]
    );
}

#[test]
fn array_gives_its_items_owned_or_borrowed() {
    let owned = Array::from_vec(vec![Index { name: s("a"), columns: vec![s("x")], unique: true }]);
    assert!(matches!(owned, Array::Owned(_)));
    assert_eq!(owned.len(), 1);
    assert_eq!(owned.as_slice()[0].name, "a");
    let items = [1u8, 2, 3];
    let borrowed = Array::Borrowed(&items[..]);
    assert_eq!(borrowed.as_slice(), &[1u8, 2, 3]);
    assert_eq!(borrowed.len(), 3);
    assert_eq!(Array::<u8>::from_vec(vec![]).len(), 0);
}
