use easy_sqlx_core::context::Context;
use easy_sqlx_core::error::SchemaError;
use easy_sqlx_core::introspect::{
    get_columns, get_columns_query, get_indexes, get_indexes_query, get_tables, is_autoincr,
    is_table_exists, live_table, Col, Idx,
};
use easy_sqlx_core::upgrade::{
    insert_upgrade_tag, insert_upgrade_tag_at, query_upgrade_tags, upgrade_values, Upgrade,
};
use easy_sqlx_core::value::Value;

fn s(text: &str) -> String {
    text.to_string()
}

fn text(v: &str) -> Value {
    Value::Text(Some(s(v)))
}

fn row(name: &str, data_type: &str, len: Option<i32>) -> Col {
    Col {
        column_name: s(name),
        column_default: None,
        is_nullable: s("NO"),
        data_type: s(data_type),
        character_maximum_length: len,
        primarykey: false,
    }
}

fn idx(name: &str, def: &str) -> Idx {
    Idx { indexname: s(name), indexdef: s(def) }
}

#[test]
fn sequence_defaults_are_recognised() {
    assert!(is_autoincr(&s("nextval('pt_account_test_seq'::regclass)")));
    assert!(is_autoincr(&s("NEXTVAL('x'::REGCLASS)")));
    assert!(!is_autoincr(&s("nextval('x')")));
    assert!(!is_autoincr(&s("0")));
    assert!(!is_autoincr(&s("")));
    assert!(!is_autoincr(&s(" nextval('x'::regclass)")));
}

#[test]
fn reported_text_column() {
    let mut r = row("name", "character varying", Some(30));
    r.is_nullable = s("YES");
    r.column_default = Some(s("'x'::character varying"));
    let c = r.to_column();
    assert_eq!(c.name, "");
    assert_eq!(c.column, Some(s("name")));
    assert_eq!((c.typ.name.as_str(), c.typ.len, c.typ.len2, c.typ.fixed_len), ("VARCHAR", Some(30), None, None));
    assert!(c.nullable && !c.pk && !c.autoincr && !c.ignore && !c.replace);
    assert_eq!(c.default, Some(s("'x'::character varying")));
    assert_eq!((c.col_type, c.comment, c.from), (None, None, None));
}

#[test]
fn reported_serial_column_has_no_default() {
    let mut r = row("id", "bigint", None);
    r.primarykey = true;
    r.column_default = Some(s("nextval('user_id_seq'::regclass)"));
    let c = r.to_column();
    assert!(c.pk && c.autoincr && !c.nullable);
    assert_eq!(c.default, None);
    assert_eq!((c.typ.name.as_str(), c.typ.len), ("BIGINT", None));
}

#[test]
fn reported_single_character_is_fixed() {
    let c = row("flag", "character", Some(1)).to_column();
    assert_eq!((c.typ.name.as_str(), c.typ.len, c.typ.fixed_len), ("CHAR", Some(1), Some(1)));
    let c = row("code", "character", Some(3)).to_column();
    assert_eq!((c.typ.name.as_str(), c.typ.len, c.typ.fixed_len), ("CHAR", Some(3), None));
}

#[test]
fn reported_unknown_type_is_kept_as_a_name() {
    let c = row("shape", "geometry", None).to_column();
    assert_eq!((c.typ.name.as_str(), c.typ.len), ("GEOMETRY", None));
    let c = row("amount", "numeric(10,2)", Some(5)).to_column();
    assert_eq!((c.typ.name.as_str(), c.typ.len, c.typ.len2), ("NUMERIC", Some(10), Some(2)));
}

#[test]
fn nullable_is_read_without_case() {
    let mut r = row("a", "integer", None);
    for (word, expected) in [("YES", true), ("yes", true), ("Yes", true), ("NO", false), ("", false), ("y", false)] {
        r.is_nullable = s(word);
        assert_eq!(r.to_column().nullable, expected);
    }
}

#[test]
fn get_columns_keeps_the_order_of_the_rows() {
    let cols = get_columns(&vec![row("b", "integer", None), row("a", "text", None)]);
    let names: Vec<Option<String>> = cols.iter().map(|c| c.column.clone()).collect();
    assert_eq!(names, vec![Some(s("b")), Some(s("a"))]);
    assert_eq!(cols[0].typ.name, "INT");
    assert_eq!(cols[1].typ.name, "TEXT");
}

#[test]
fn index_row_gives_name_columns_and_uniqueness() {
    let i = idx("user_uqe_a", "CREATE UNIQUE INDEX user_uqe_a ON public.\"user\" USING btree (a, b)")
        .to_index()
        .unwrap()
        .unwrap();
    assert_eq!(i.name, "user_uqe_a");
    assert!(i.unique);
    assert_eq!(i.columns, vec![s("a"), s("b")]);
    let i = idx("user_idx_a", "CREATE INDEX user_idx_a ON public.t USING btree (a)").to_index().unwrap().unwrap();
    assert!(!i.unique);
    assert_eq!(i.columns, vec![s("a")]);
}

#[test]
fn primary_key_index_is_left_out() {
    assert!(idx("user_pkey", "CREATE UNIQUE INDEX user_pkey ON public.t USING btree (id)").to_index().unwrap().is_none());
    assert!(idx("USER_PKEY", "no columns here").to_index().unwrap().is_none());
    assert!(idx("Primary", "CREATE INDEX x ON t (id)").to_index().unwrap().is_none());
}

#[test]
fn index_row_without_column_list_fails() {
    assert_eq!(
        idx("odd", "CREATE INDEX odd ON public.t USING btree").to_index(),
        Err(SchemaError::IntrospectionFailed(s("odd")))
    );
    assert_eq!(
        idx("expr", "CREATE INDEX expr ON t (lower(a))").to_index().unwrap().unwrap().columns,
        vec![s("a")]
    );
}

#[test]
fn index_row_with_given_match() {
    let row = idx("i", "CREATE UNIQUE INDEX whatever");
    assert_eq!(row.to_index_with(&None), Err(SchemaError::IntrospectionFailed(s("i"))));
    let found = Some(vec![Some(s("(x,y)")), Some(s("x,y"))]);
    let got = row.to_index_with(&found).unwrap().unwrap();
    assert_eq!((got.name.as_str(), got.unique), ("i", true));
    assert_eq!(got.columns, vec![s("x"), s("y")]);
    let odd = Some(vec![Some(s("(x,y)"))]);
    assert_eq!(row.to_index_with(&odd), Err(SchemaError::IntrospectionFailed(s("i"))));
    let unmatched = Some(vec![Some(s("(x,y)")), None]);
    assert_eq!(row.to_index_with(&unmatched), Err(SchemaError::IntrospectionFailed(s("i"))));
}

#[test]
fn get_indexes_stops_at_the_first_failure() {
    let rows = vec![
        idx("t_pkey", "CREATE UNIQUE INDEX t_pkey ON t (id)"),
        idx("a", "CREATE INDEX a ON t (x)"),
        idx("b", "CREATE UNIQUE INDEX b ON t (y,z)"),
    ];
    let list = get_indexes(&rows).unwrap();
    let names: Vec<String> = list.iter().map(|i| i.name.clone()).collect();
    assert_eq!(names, vec![s("a"), s("b")]);
    let mut bad = rows;
    bad.insert(1, idx("broken", "nothing"));
    bad.push(idx("worse", "nothing"));
    assert_eq!(get_indexes(&bad), Err(SchemaError::IntrospectionFailed(s("broken"))));
}

#[test]
fn live_table_of_catalog_rows() {
    let t = live_table(&s("user"), &s("public"), &vec![row("id", "bigint", None)], &vec![]).unwrap();
    assert_eq!((t.name.as_str(), t.schema.clone()), ("user", Some(s("public"))));
    assert_eq!(t.columns.len(), 1);
    assert!(t.indexes.is_none());
    assert!(!t.trim_columns && !t.trim_indexes && t.recreate.is_none());
    let t = live_table(&s("user"), &s("public"), &vec![], &vec![idx("a", "CREATE INDEX a ON t (x)")]).unwrap();
    assert_eq!(t.indexes.unwrap().len(), 1);
    let t = live_table(&s("user"), &s("public"), &vec![], &vec![idx("t_pkey", "(id)")]).unwrap();
    assert!(t.indexes.is_none());
    assert_eq!(
        live_table(&s("user"), &s("public"), &vec![], &vec![idx("bad", "")]).err(),
        Some(SchemaError::IntrospectionFailed(s("bad")))
    );
}

#[test]
fn table_rows_give_names_with_namespaces() {
    let rows = vec![
        easy_sqlx_core::introspect::Table { tablename: s("user"), schemaname: s("public") },
        easy_sqlx_core::introspect::Table { tablename: s("note"), schemaname: s("app") },
    ];
    assert_eq!(
        easy_sqlx_core::introspect::get_table_names(&rows),
        vec![(s("user"), s("public")), (s("note"), s("app"))]
    );
}

#[test]
fn catalog_queries_use_the_default_namespace() {
    let ctx = Context::new(s(""));
    let q = get_tables(&ctx);
    assert_eq!(q.sql, "select tablename, schemaname from pg_tables where schemaname=$1");
    assert_eq!(q.args, vec![text("public")]);
    let q = is_table_exists(&ctx, s("user"), s(""));
    assert!(q.sql.contains("table_schema = $1 AND table_name = $2"));
    assert_eq!(q.args, vec![text("public"), text("user")]);
    let q = is_table_exists(&ctx, s("user"), s("app"));
    assert_eq!(q.args, vec![text("app"), text("user")]);
    let q = get_columns_query(&ctx, &s("user"), None);
    assert!(q.sql.starts_with("SELECT column_name, column_default, is_nullable, data_type, character_maximum_length,"));
    assert!(q.sql.ends_with("AND c.relname = $1 AND s.table_schema = $2 AND f.attnum > 0 ORDER BY f.attnum;"));
    assert_eq!(q.args, vec![text("user"), text("public")]);
    let q = get_columns_query(&ctx, &s("user"), Some(s("")));
    assert!(q.sql.ends_with("AND c.relname = $1  AND f.attnum > 0 ORDER BY f.attnum;"));
    assert_eq!(q.args, vec![text("user")]);
    let q = get_indexes_query(&ctx, &s("user"), Some(s("app")));
    assert_eq!(q.sql, "SELECT indexname, indexdef FROM pg_indexes WHERE tablename=$1 AND schemaname = $2");
    assert_eq!(q.args, vec![text("user"), text("app")]);
    let q = get_indexes_query(&ctx, &s("user"), Some(s("")));
    assert_eq!(q.sql, "SELECT indexname, indexdef FROM pg_indexes WHERE tablename=$1");
    assert_eq!(q.args, vec![text("user")]);
}

#[test]
fn ledger_queries() {
    let q = query_upgrade_tags(&s("public.user"), &s("recreate"));
    assert!(q.sql.contains("from public.__rpa_upgrade where table_name = $1 and up_tag = $2 order by id desc"));
    assert_eq!(q.args, vec![text("public.user"), text("recreate")]);
    let q = insert_upgrade_tag_at(&s("public.user"), &s("recreate"), &s("v2"), &s("2024/01/02 03:04:05"));
    assert_eq!(
        q.sql,
        "insert into public.__rpa_upgrade (table_name, up_tag, up_value, create_time) values ($1, $2, $3, $4)"
    );
    assert_eq!(q.args, vec![text("public.user"), text("recreate"), text("v2"), text("2024/01/02 03:04:05")]);
}

#[test]
fn ledger_entry_made_now_carries_a_time() {
    let q = insert_upgrade_tag(&s("public.user"), &s("recreate"), &s("v2"));
    assert_eq!(q.args.len(), 4);
    assert_eq!(&q.args[..3], &[text("public.user"), text("recreate"), text("v2")]);
    match &q.args[3] {
        Value::Text(Some(time)) => {
            let shape: String = time.chars().map(|c| if c.is_ascii_digit() { '9' } else { c }).collect();
            assert_eq!(shape, "9999/99/99 99:99:99");
        }
        other => panic!("no time in {:?}", other),
    }
}

#[test]
fn ledger_values_of_entries() {
    let rows = vec![
        Upgrade { id: 2, table_name: s("t"), up_tag: s("recreate"), up_value: s("v2"), create_time: s("x") },
        Upgrade { id: 1, table_name: s("t"), up_tag: s("recreate"), up_value: s("v1"), create_time: s("y") },
    ];
    assert_eq!(upgrade_values(&rows), vec![s("v2"), s("v1")]);
    assert_eq!(upgrade_values(&vec![]), Vec::<String>::new());
}

#[test]
fn reported_type_without_length_takes_the_default_of_its_relation() {
    let c = row("created_at", "timestamp without time zone", None).to_column();
    assert_eq!((c.typ.name.as_str(), c.typ.len, c.typ.fixed_len), ("TIMESTAMP", Some(6), None));
    let c = row("at", "TIMESTAMP", None).to_column();
    assert_eq!((c.typ.name.as_str(), c.typ.len), ("TIMESTAMP", Some(6)));
    let c = row("hour", "time without time zone", None).to_column();
    assert_eq!((c.typ.name.as_str(), c.typ.len), ("TIME", Some(6)));
    let c = row("day", "date", None).to_column();
    assert_eq!((c.typ.name.as_str(), c.typ.len), ("DATE", None));
    let c = row("title", "character varying", None).to_column();
    assert_eq!((c.typ.name.as_str(), c.typ.len), ("VARCHAR", Some(255)));
    let c = row("n", "integer", None).to_column();
    assert_eq!((c.typ.name.as_str(), c.typ.len), ("INT", None));
}

#[test]
fn index_columns_lose_the_blanks_around_them() {
    let i = idx("t_idx_a_b_c", "CREATE INDEX t_idx_a_b_c ON public.t USING btree (a,  b ,c)")
        .to_index()
        .unwrap()
        .unwrap();
    assert_eq!(i.columns, vec![s("a"), s("b"), s("c")]);
    let found = Some(vec![Some(s("( x , y )")), Some(s(" x , y "))]);
    let got = idx("i", "create index i").to_index_with(&found).unwrap().unwrap();
    assert_eq!(got.columns, vec![s("x"), s("y")]);
    let rows = vec![
        idx("t_pkey", "CREATE UNIQUE INDEX t_pkey ON public.t USING btree (id)"),
        idx("t_uqe_a_b", "CREATE UNIQUE INDEX t_uqe_a_b ON public.t USING btree (a, b)"),
    ];
    let list = get_indexes(&rows).unwrap();
    assert_eq!(list.len(), 1);
    assert_eq!(list[0].columns, vec![s("a"), s("b")]);
    assert!(list[0].unique);
}
