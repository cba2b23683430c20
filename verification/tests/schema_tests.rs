use easy_sqlx_core::column::Column;
use easy_sqlx_core::error::SchemaError;
use easy_sqlx_core::index::Index;
use easy_sqlx_core::table::TableSchema;
use easy_sqlx_core::types::SqlType;

fn s(text: &str) -> String {
    text.to_string()
}

fn col(name: &str, column: Option<&str>) -> Column {
    Column {
        name: s(name),
        column: column.map(s),
        typ: SqlType { name: s("INT"), len: None, len2: None, fixed_len: None },
        ..Column::default()
    }
}

fn index(name: &str, columns: &[&str], unique: bool) -> Index {
    Index { name: s(name), columns: columns.iter().map(|c| s(c)).collect(), unique }
}

fn table(name: &str, columns: Vec<Column>) -> TableSchema {
    TableSchema { name: s(name), columns, ..TableSchema::default() }
}

#[test]
fn column_names_compare_without_case() {
    assert!(col("id", None).is_name_equal(&col("ID", None)));
    assert!(col("name", Some("abc")).is_name_equal(&col("ABC", None)));
    assert!(col("x", None).is_name_equal(&col("y", Some("X"))));
    assert!(!col("name", Some("abc")).is_name_equal(&col("name", None)));
}

#[test]
fn column_name_in_database_and_in_query() {
    assert_eq!(col("name", None).get_column_name(), "name");
    assert_eq!(col("name", Some("abc")).get_column_name(), "abc");
    assert_eq!(col("name", None).get_query_column_name(), "name");
    assert_eq!(col("name", Some("abc")).get_query_column_name(), "abc as name");
}

#[test]
fn column_assign_fills_what_is_not_set() {
    let mut target = col("name", None);
    target.comment = Some(s("mine"));
    let mut source = col("other", Some("abc"));
    source.pk = true;
    source.autoincr = true;
    source.col_type = Some(s("text"));
    source.comment = Some(s("theirs"));
    source.default = Some(s("0"));
    source.from = Some(s("old"));
    source.replace = true;
    source.nullable = true;
    source.ignore = true;
    target.assign(&source);
    assert_eq!(target.name, "name");
    assert_eq!(target.column, Some(s("abc")));
    assert_eq!(target.col_type, Some(s("text")));
    assert_eq!(target.comment, Some(s("mine")));
    assert_eq!(target.default, Some(s("0")));
    assert_eq!(target.from, None);
    assert!(target.pk && target.autoincr && target.replace);
    assert!(!target.nullable && !target.ignore);
    assert_eq!(target.typ.name, "INT");
}

#[test]
fn column_assign_replaces_an_earlier_name() {
    let mut target = col("name", None);
    target.from = Some(s("mine"));
    let mut source = col("other", None);
    source.from = Some(s("theirs"));
    target.assign(&source);
    assert_eq!(target.from, Some(s("theirs")));
    let mut target = col("name", None);
    target.from = Some(s("mine"));
    target.assign(&col("other", None));
    assert_eq!(target.from, None);
}

#[test]
fn column_equality_leaves_primary_key_out() {
    let a = col("id", None);
    let mut b = col("ID", None);
    b.pk = true;
    b.comment = Some(s("x"));
    assert!(a == b);
    let mut c = col("id", None);
    c.nullable = true;
    assert!(a != c);
    let mut d = col("id", None);
    d.default = Some(s("0"));
    assert!(a != d);
    let mut e = col("id", None);
    e.typ.len = Some(4);
    assert!(a == e);
    e.typ.name = s("BIGINT");
    assert!(a != e);
    let mut f = col("id", None);
    f.autoincr = true;
    assert!(a != f);
    assert!(a != col("idx", None));
    let copy = a.clone();
    assert!(a == copy);
}

#[test]
fn index_names_and_columns_compare() {
    let a = index("user_idx_a", &["a", "b"], false);
    assert!(a.is_name_equal(&index("USER_IDX_A", &[], true)));
    assert!(!a.is_name_equal(&index("user_idx_b", &["a", "b"], false)));
    assert!(a.is_columns_equal(&index("x", &["a", "b"], true)));
    assert!(!a.is_columns_equal(&index("x", &["b", "a"], false)));
    assert!(!a.is_columns_equal(&index("x", &["a"], false)));
    assert!(!a.is_columns_equal(&index("x", &["a", " b"], false)));
}

#[test]
fn index_name_is_derived_from_table_and_columns() {
    let t = s("user");
    assert_eq!(index("", &["a", "b"], false).get_name(&t), (s("user_idx_a_b"), false));
    assert_eq!(index("", &["a"], true).get_name(&t), (s("user_uqe_a"), false));
    assert_eq!(index("mine", &["a"], false).get_name(&t), (s("user_idx_mine"), true));
    assert_eq!(index("", &[], false).get_name(&t), (s("user_idx_"), false));
}

#[test]
fn index_name_with_number() {
    let t = s("user");
    assert_eq!(index("", &["a", "b"], false).get_name_with_index(&t, 2), (s("user_idx_2_a_b"), false));
    assert_eq!(index("", &["a"], true).get_name_with_index(&t, 10), (s("user_uqe_10_a"), false));
    assert_eq!(index("", &["a"], true).get_name_with_index(&t, -1), (s("user_uqe_-1_a"), false));
    assert_eq!(index("mine", &["a"], false).get_name_with_index(&t, 2), (s("user_idx_mine"), true));
}

#[test]
fn table_names_with_namespace() {
    let mut t = table("user", vec![]);
    assert_eq!(t.name_with_schema(), "user");
    assert_eq!(t.index_name_with_schema(&s("i")), "i");
    t.schema = Some(s("app"));
    assert_eq!(t.name_with_schema(), "app.user");
    assert_eq!(t.index_name_with_schema(&s("i")), "app.i");
}

#[test]
fn find_column_by_exact_database_name() {
    let t = table("user", vec![col("id", None), col("name", Some("abc")), col("abc", None)]);
    assert_eq!(t.find_column(&s("id")).unwrap().name, "id");
    assert_eq!(t.find_column(&s("abc")).unwrap().name, "name");
    assert!(t.find_column(&s("name")).is_none());
    assert!(t.find_column(&s("ID")).is_none());
}

#[test]
fn check_indexes_columns_names_the_first_missing_column() {
    let mut t = table("user", vec![col("id", None), col("name", Some("abc"))]);
    assert_eq!(t.check_indexes_columns(), Ok(()));
    t.indexes = Some(vec![index("i", &["id", "abc"], false)]);
    assert_eq!(t.check_indexes_columns(), Ok(()));
    t.indexes = Some(vec![index("i", &["id"], false), index("j", &["abc", "name", "zip"], false)]);
    assert_eq!(t.check_indexes_columns(), Err(SchemaError::UndeclaredIndexColumn(s("name"))));
}

#[test]
fn table_assign_merges_attributes() {
    let mut t = table("", vec![col("id", None)]);
    t.comment = Some(s("mine"));
    t.indexes = Some(vec![index("a", &["id"], false)]);
    let mut source = table("user", vec![col("x", None)]);
    source.schema = Some(s("app"));
    source.comment = Some(s("theirs"));
    source.recreate = Some(s("v1"));
    source.from = Some(s("old"));
    source.trim_columns = true;
    source.indexes = Some(vec![index("b", &["id"], true)]);
    assert_eq!(t.assign(source), Ok(()));
    assert_eq!(t.name, "user");
    assert_eq!(t.schema, Some(s("app")));
    assert_eq!(t.comment, Some(s("mine")));
    assert_eq!(t.recreate, Some(s("v1")));
    assert_eq!(t.from, Some(s("old")));
    assert!(t.trim_columns && !t.trim_indexes);
    assert_eq!(t.columns.len(), 1);
    let names: Vec<String> = t.indexes.unwrap().iter().map(|i| i.name.clone()).collect();
    assert_eq!(names, vec![s("a"), s("b")]);
}

#[test]
fn table_assign_without_indexes_keeps_none() {
    let mut t = table("user", vec![]);
    let mut source = table("other", vec![]);
    source.indexes = Some(vec![]);
    assert_eq!(t.assign(source), Ok(()));
    assert_eq!(t.name, "user");
    assert!(t.indexes.is_none());
}

#[test]
fn add_index_numbers_derived_names_that_collide() {
    let mut t = table("user", vec![col("a", None), col("b", None)]);
    assert_eq!(t.add_index(index("", &["a", "b"], false)), Ok(()));
    assert_eq!(t.add_index(index("", &["a", "b"], false)), Ok(()));
    assert_eq!(t.add_index(index("", &["a", "b"], false)), Ok(()));
    assert_eq!(t.add_index(index("", &["a", "b"], true)), Ok(()));
    let names: Vec<String> = t.indexes.unwrap().iter().map(|i| i.name.clone()).collect();
    assert_eq!(
        names,
        vec![s("user_idx_a_b"), s("user_idx_1_a_b"), s("user_idx_2_a_b"), s("user_uqe_a_b")]
    );
}

#[test]
fn add_index_refuses_a_given_name_twice() {
    let mut t = table("user", vec![col("a", None)]);
    assert_eq!(t.add_index(index("mine", &["a"], false)), Ok(()));
    assert_eq!(
        t.add_index(index("mine", &["a"], false)),
        Err(SchemaError::DuplicateIndexName(s("user_idx_mine")))
    );
    assert_eq!(t.indexes.as_ref().unwrap().len(), 1);
    assert_eq!(t.add_index(index("mine", &["a"], true)), Ok(()));
    assert_eq!(t.indexes.as_ref().unwrap()[1].name, "user_uqe_mine");
}

#[test]
fn table_clone_keeps_everything() {
    let mut t = table("user", vec![col("id", None), col("name", Some("abc"))]);
    t.schema = Some(s("app"));
    t.indexes = Some(vec![index("i", &["id"], true)]);
    t.recreate = Some(s("v2"));
    t.trim_indexes = true;
    let c = t.clone();
    assert_eq!(c.name, "user");
    assert_eq!(c.schema, Some(s("app")));
    assert_eq!(c.columns.len(), 2);
    assert_eq!(c.columns[1].column, Some(s("abc")));
    assert_eq!(c.indexes.as_ref().unwrap()[0].columns, vec![s("id")]);
    assert!(c.indexes.as_ref().unwrap()[0].unique);
    assert_eq!(c.recreate, Some(s("v2")));
    assert!(c.trim_indexes && !c.trim_columns);
}
