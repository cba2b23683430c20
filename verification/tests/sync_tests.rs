use easy_sqlx_core::builder::new;
use easy_sqlx_core::column::Column;
use easy_sqlx_core::error::SchemaError;
use easy_sqlx_core::index::Index;
use easy_sqlx_core::introspect::{Col, Idx};
use easy_sqlx_core::pass::sync_pass;
use easy_sqlx_core::schema::Schema;
use easy_sqlx_core::sync::{
    check_recreate, find_live_column, plan_table, plan_tables, sync_tables, SyncStep,
};
use easy_sqlx_core::table::TableSchema;
use easy_sqlx_core::types::SqlType;
use easy_sqlx_core::validate::{check_table, check_tables};

fn s(text: &str) -> String {
    text.to_string()
}

fn column(name: &str, scalar: &str, len: Option<isize>) -> Column {
    Column { name: s(name), typ: SqlType::new(&s(scalar), len).unwrap(), ..Column::default() }
}

fn index(name: &str, columns: &[&str], unique: bool) -> Index {
    Index { name: s(name), columns: columns.iter().map(|c| s(c)).collect(), unique }
}

fn user(name_len: isize) -> TableSchema {
    let mut id = column("id", "i64", None);
    id.pk = true;
    let name = column("name", "String", Some(name_len));
    let mut created_at = column("created_at", "NaiveDateTime", None);
    created_at.nullable = true;
    TableSchema { name: s("user"), columns: vec![id, name, created_at], ..TableSchema::default() }
}

fn as_live(declared: &TableSchema) -> TableSchema {
    let mut live = declared.clone();
    live.schema = Some(s("public"));
    live.recreate = None;
    live.trim_columns = false;
    live.trim_indexes = false;
    live
}

const CREATE_USER: &str = "CREATE TABLE IF NOT EXISTS \"public\".\"user\" (\"id\" BIGINT PRIMARY KEY NOT NULL ,\"name\" VARCHAR(30) NOT NULL ,\"created_at\" TIMESTAMP(6) NULL )";

#[test]
fn missing_table_is_created_with_its_three_columns() {
    let plan = sync_tables(&vec![user(30)], &vec![], "");
    assert_eq!(plan.statements, vec![s(CREATE_USER)]);
    assert_eq!(plan.error, None);
    let created = &plan.statements[0];
    assert_eq!(created.matches("PRIMARY KEY").count(), 1);
    assert!(created.contains("\"id\" BIGINT PRIMARY KEY NOT NULL "));
    assert!(created.contains("\"created_at\" TIMESTAMP(6) NULL "));
    assert_eq!(created.matches("NOT NULL").count(), 2);
}

#[test]
fn created_table_needs_nothing_more() {
    let declared = user(30);
    let plan = sync_tables(&vec![declared.clone()], &vec![as_live(&declared)], "");
    assert_eq!(plan.statements, Vec::<String>::new());
    assert_eq!(plan.error, None);
    let again = sync_tables(&vec![declared.clone()], &vec![as_live(&declared)], "");
    assert_eq!(again.statements, Vec::<String>::new());
}

#[test]
fn created_table_with_indexes_needs_nothing_more() {
    let mut declared = user(30);
    declared.trim_columns = true;
    declared.trim_indexes = true;
    declared.add_index(index("", &["name"], false)).unwrap();
    declared.add_index(index("", &["id", "name"], true)).unwrap();
    declared.add_index(index("none", &[], false)).unwrap();
    let first = sync_tables(&vec![declared.clone()], &vec![], "");
    assert_eq!(
        first.statements,
        vec![
            s(CREATE_USER),
            s("CREATE INDEX \"user_idx_name\" ON \"public\".\"user\" (name)"),
            s("CREATE UNIQUE INDEX \"user_uqe_id_name\" ON \"public\".\"user\" (id,name)"),
        ]
    );
    let mut live = as_live(&declared);
    live.indexes.as_mut().unwrap().pop();
    let second = sync_tables(&vec![declared], &vec![live], "");
    assert_eq!(second.statements, Vec::<String>::new());
    assert_eq!(second.error, None);
}

#[test]
fn longer_name_is_one_alter_statement() {
    let plan = sync_tables(&vec![user(50)], &vec![as_live(&user(30))], "");
    assert_eq!(
        plan.statements,
        vec![s("ALTER TABLE \"public\".\"user\" ALTER COLUMN name TYPE VARCHAR(50)")]
    );
    assert_eq!(plan.error, None);
}

#[test]
fn live_table_is_found_without_case_and_with_default_namespace() {
    let declared = user(30);
    let mut live = as_live(&declared);
    live.name = s("USER");
    assert!(sync_tables(&vec![declared.clone()], &vec![live], "").statements.is_empty());
    let mut elsewhere = as_live(&declared);
    elsewhere.schema = Some(s("app"));
    assert_eq!(sync_tables(&vec![declared.clone()], &vec![elsewhere.clone()], "").statements, vec![s(CREATE_USER)]);
    assert!(sync_tables(&vec![declared], &vec![elsewhere], "app").statements.is_empty());
}

#[test]
fn missing_column_is_added() {
    let declared = user(30);
    let mut live = as_live(&declared);
    live.columns.remove(1);
    let plan = sync_tables(&vec![declared], &vec![live], "");
    assert_eq!(
        plan.statements,
        vec![s("ALTER TABLE \"public\".\"user\" ADD COLUMN \"name\" VARCHAR(30) NOT NULL ")]
    );
}

#[test]
fn undeclared_columns_are_dropped_only_when_asked() {
    let mut declared = user(30);
    let mut live = as_live(&declared);
    live.columns.push(column("legacy", "i32", None));
    assert!(sync_tables(&vec![declared.clone()], &vec![live.clone()], "").statements.is_empty());
    declared.trim_columns = true;
    assert_eq!(
        sync_tables(&vec![declared], &vec![live], "").statements,
        vec![s("ALTER TABLE \"public\".\"user\" DROP COLUMN IF EXISTS \"legacy\"")]
    );
}

#[test]
fn renamed_column_matches_its_earlier_name() {
    let mut declared = user(30);
    declared.trim_columns = true;
    declared.columns[1].name = s("full_name");
    declared.columns[1].from = Some(s("NAME"));
    declared.columns[1].nullable = true;
    let live = as_live(&user(30));
    let found = find_live_column(&live.columns, &declared.columns[1]).unwrap();
    assert_eq!(found.name, "name");
    assert_eq!(
        sync_tables(&vec![declared], &vec![live], "").statements,
        vec![s("ALTER TABLE \"public\".\"user\" ALTER COLUMN name DROP NOT NULL")]
    );
}

#[test]
fn column_of_same_name_wins_over_earlier_name() {
    let mut wanted = column("b", "i32", None);
    wanted.from = Some(s("a"));
    let live = vec![column("a", "i64", None), column("B", "i32", None)];
    assert_eq!(find_live_column(&live, &wanted).unwrap().name, "B");
    assert!(find_live_column(&live, &column("c", "i32", None)).is_none());
}

#[test]
fn autoincrement_column_ignores_default() {
    let mut declared = user(30);
    declared.columns[0].autoincr = true;
    let mut live = as_live(&declared);
    live.columns[0].default = Some(s("17"));
    assert!(sync_tables(&vec![declared.clone()], &vec![live.clone()], "").statements.is_empty());
    declared.columns[0].autoincr = false;
    live.columns[0].autoincr = false;
    assert_eq!(
        sync_tables(&vec![declared], &vec![live], "").statements,
        vec![s("ALTER TABLE \"public\".\"user\" ALTER COLUMN id DROP DEFAULT")]
    );
}

#[test]
fn changed_index_is_dropped_and_created() {
    let mut declared = user(30);
    declared.indexes = Some(vec![
        index("user_idx_name", &["name"], false),
        index("user_idx_new", &["id"], false),
        index("user_idx_same", &["id", "name"], false),
    ]);
    let mut live = as_live(&declared);
    live.indexes = Some(vec![
        index("USER_IDX_NAME", &["name", "id"], false),
        index("user_idx_same", &["id", "name"], true),
        index("user_idx_old", &["id"], false),
    ]);
    assert_eq!(
        sync_tables(&vec![declared.clone()], &vec![live.clone()], "").statements,
        vec![
            s("DROP INDEX IF EXISTS \"public\".\"USER_IDX_NAME\""),
            s("CREATE INDEX \"user_idx_name\" ON \"public\".\"user\" (name)"),
            s("CREATE INDEX \"user_idx_new\" ON \"public\".\"user\" (id)"),
        ]
    );
    declared.trim_indexes = true;
    assert_eq!(
        sync_tables(&vec![declared], &vec![live], "").statements,
        vec![
            s("DROP INDEX IF EXISTS \"public\".\"USER_IDX_NAME\""),
            s("CREATE INDEX \"user_idx_name\" ON \"public\".\"user\" (name)"),
            s("CREATE INDEX \"user_idx_new\" ON \"public\".\"user\" (id)"),
            s("DROP INDEX IF EXISTS \"public\".\"user_idx_old\""),
        ]
    );
}

#[test]
fn index_without_columns_is_neither_created_nor_dropped() {
    let mut declared = user(30);
    declared.trim_indexes = true;
    declared.indexes = Some(vec![index("user_idx_a", &[], false), index("user_idx_b", &["id"], false)]);
    let mut live = as_live(&declared);
    live.indexes = Some(vec![index("user_idx_b", &[], false), index("user_idx_c", &[], false)]);
    assert_eq!(
        sync_tables(&vec![declared], &vec![live], "").statements,
        vec![s("CREATE INDEX \"user_idx_b\" ON \"public\".\"user\" (id)")]
    );
}

#[test]
fn trimming_indexes_without_declared_ones_drops_all() {
    let mut declared = user(30);
    declared.trim_indexes = true;
    let mut live = as_live(&declared);
    live.indexes = Some(vec![index("a", &["id"], false), index("b", &["name"], false)]);
    assert_eq!(
        sync_tables(&vec![declared], &vec![live], "").statements,
        vec![s("DROP INDEX IF EXISTS \"public\".\"a\""), s("DROP INDEX IF EXISTS \"public\".\"b\"")]
    );
}

fn note(body_len: Option<isize>) -> TableSchema {
    let body = Column {
        name: s("body"),
        typ: SqlType { name: s("VARCHAR"), len: body_len, len2: None, fixed_len: None },
        ..Column::default()
    };
    TableSchema { name: s("note"), columns: vec![body], ..TableSchema::default() }
}

#[test]
fn missing_length_leaves_the_plan_without_statements() {
    let first = user(30);
    let mut second = note(None);
    second.trim_columns = true;
    let mut live_note = as_live(&note(Some(10)));
    live_note.columns.push(column("legacy", "i32", None));
    let third = TableSchema { name: s("later"), columns: vec![column("id", "i32", None)], ..TableSchema::default() };
    let plan = sync_tables(&vec![first.clone(), second, third.clone()], &vec![live_note.clone()], "");
    assert_eq!(plan.statements, Vec::<String>::new());
    assert_eq!(
        plan.error,
        Some(SchemaError::MissingLength { column: s("body"), table: s("\"public\".\"note\"") })
    );
    assert!(matches!(plan.step(0), SyncStep::Fail(SchemaError::MissingLength { .. })));
    let mut sized = note(Some(20));
    sized.trim_columns = true;
    let plan = sync_tables(&vec![first, sized, third], &vec![live_note], "");
    assert_eq!(plan.error, None);
    assert_eq!(
        plan.statements,
        vec![
            s(CREATE_USER),
            s("ALTER TABLE \"public\".\"note\" ALTER COLUMN body TYPE VARCHAR(20)"),
            s("ALTER TABLE \"public\".\"note\" DROP COLUMN IF EXISTS \"legacy\""),
            s("CREATE TABLE IF NOT EXISTS \"public\".\"later\" (\"id\" INT NOT NULL )"),
        ]
    );
}

#[test]
fn table_without_columns_ends_the_plan() {
    let empty = TableSchema { name: s("empty"), ..TableSchema::default() };
    let plan = sync_tables(&vec![empty.clone(), user(30)], &vec![], "");
    assert_eq!(plan.statements, Vec::<String>::new());
    assert_eq!(plan.error, Some(SchemaError::EmptyTableDefinition(s("empty"))));
    let plan = sync_tables(&vec![user(30), empty.clone()], &vec![], "");
    assert_eq!(plan.statements, Vec::<String>::new());
    assert_eq!(plan.error, Some(SchemaError::EmptyTableDefinition(s("empty"))));
    assert_eq!(check_tables(&vec![user(30), empty]), Err(SchemaError::EmptyTableDefinition(s("empty"))));
    assert_eq!(check_tables(&vec![user(30), note(None)]), Ok(()));
    assert_eq!(check_tables(&vec![]), Ok(()));
}

#[test]
fn undeclared_index_column_is_reported_before_any_statement() {
    let mut wrong = note(Some(10));
    wrong.indexes = Some(vec![index("note_idx_body", &["body"], false), index("note_idx_x", &["body", "title"], false)]);
    assert_eq!(check_table(&wrong), Err(SchemaError::UndeclaredIndexColumn(s("title"))));
    let plan = sync_tables(&vec![user(30), wrong.clone()], &vec![], "");
    assert_eq!(plan.statements, Vec::<String>::new());
    assert_eq!(plan.error, Some(SchemaError::UndeclaredIndexColumn(s("title"))));
    let plan = sync_tables(&vec![user(50), wrong], &vec![as_live(&user(30))], "");
    assert_eq!(plan.statements, Vec::<String>::new());
    assert_eq!(plan.error, Some(SchemaError::UndeclaredIndexColumn(s("title"))));
}

#[test]
fn repeated_index_name_is_reported_before_any_statement() {
    let mut wrong = note(Some(10));
    wrong.indexes = Some(vec![
        index("note_idx_a", &["body"], false),
        index("note_idx_b", &["body"], true),
        index("NOTE_IDX_A", &["body"], true),
    ]);
    assert_eq!(check_table(&wrong), Err(SchemaError::DuplicateIndexName(s("NOTE_IDX_A"))));
    let plan = sync_tables(&vec![user(30), wrong.clone()], &vec![], "");
    assert_eq!(plan.statements, Vec::<String>::new());
    assert_eq!(plan.error, Some(SchemaError::DuplicateIndexName(s("NOTE_IDX_A"))));
    wrong.indexes.as_mut().unwrap().pop();
    assert_eq!(check_table(&wrong), Ok(()));
    let mut both = note(Some(10));
    both.indexes = Some(vec![index("i", &["nothing"], false), index("i", &["body"], false)]);
    assert_eq!(check_table(&both), Err(SchemaError::UndeclaredIndexColumn(s("nothing"))));
}

#[test]
fn plan_table_appends_to_what_is_there() {
    let schema = new(s(""));
    let mut out = vec![s("first")];
    assert_eq!(plan_table(&schema, &user(30), None, &mut out), Ok(()));
    assert_eq!(out, vec![s("first"), s(CREATE_USER)]);
    let live = as_live(&user(30));
    assert_eq!(plan_table(&schema, &user(30), Some(&live), &mut out), Ok(()));
    assert_eq!(out.len(), 2);
}

#[test]
fn plan_steps_in_order_and_reports_refusal() {
    let plan = sync_tables(&vec![user(50)], &vec![as_live(&user(30))], "");
    assert!(matches!(plan.step(0), SyncStep::Execute(sql) if sql == plan.statements[0]));
    assert!(matches!(plan.step(1), SyncStep::Done));
    assert!(matches!(plan.step(7), SyncStep::Done));
    assert_eq!(
        plan.refused(0, s("permission denied")),
        SchemaError::StatementExecutionFailed { sql: plan.statements[0].clone(), cause: s("permission denied") }
    );
    let empty = TableSchema { name: s("empty"), ..TableSchema::default() };
    let failing = sync_tables(&vec![empty], &vec![], "");
    assert!(matches!(failing.step(0), SyncStep::Fail(SchemaError::EmptyTableDefinition(n)) if n == "empty"));
}

#[test]
fn recreate_tag_is_acted_on_once() {
    let schema = new(s(""));
    let mut t = user(30);
    assert!(check_recreate(&schema, &t, &vec![]).is_none());
    t.recreate = Some(s("v2"));
    let step = check_recreate(&schema, &t, &vec![s("v1")]).unwrap();
    assert_eq!(step.drop_sql, "DROP TABLE IF EXISTS \"public\".\"user\"");
    assert_eq!(step.table_name, "public.user");
    assert_eq!(step.tag, "recreate");
    assert_eq!(step.value, "v2");
    let mut recorded = vec![s("v1")];
    recorded.push(step.value);
    assert!(check_recreate(&schema, &t, &recorded).is_none());
    assert!(check_recreate(&schema, &t, &vec![s("v2")]).is_none());
    assert!(check_recreate(&schema, &t, &vec![s("V2")]).is_some());
}

fn reported_user_rows() -> Vec<Col> {
    vec![
        Col {
            column_name: s("id"),
            column_default: Some(s("nextval('user_id_seq'::regclass)")),
            is_nullable: s("NO"),
            data_type: s("bigint"),
            character_maximum_length: None,
            primarykey: true,
        },
        Col {
            column_name: s("name"),
            column_default: None,
            is_nullable: s("YES"),
            data_type: s("character varying"),
            character_maximum_length: Some(30),
            primarykey: false,
        },
        Col {
            column_name: s("created_at"),
            column_default: None,
            is_nullable: s("YES"),
            data_type: s("timestamp without time zone"),
            character_maximum_length: None,
            primarykey: false,
        },
    ]
}

fn declared_user() -> TableSchema {
    let mut id = column("id", "i64", None);
    id.pk = true;
    id.autoincr = true;
    let mut name = column("name", "String", Some(30));
    name.nullable = true;
    let mut created_at = column("created_at", "NaiveDateTime", None);
    created_at.nullable = true;
    TableSchema { name: s("user"), columns: vec![id, name, created_at], ..TableSchema::default() }
}

#[test]
fn reported_columns_reconcile_with_their_declaration() {
    let live = easy_sqlx_core::introspect::live_table(&s("user"), &s("public"), &reported_user_rows(), &vec![]).unwrap();
    assert_eq!(live.columns.len(), 3);
    assert_eq!(live.columns[2].typ.name, "TIMESTAMP");
    assert_eq!(live.columns[2].typ.len, Some(6));
    let declared = declared_user();
    let first = sync_tables(&vec![declared.clone()], &vec![], "");
    assert_eq!(first.statements.len(), 1);
    assert!(first.statements[0].contains("\"created_at\" TIMESTAMP(6) NULL "));
    let second = sync_tables(&vec![declared.clone()], &vec![live.clone()], "");
    assert_eq!(second.statements, Vec::<String>::new());
    assert_eq!(second.error, None);
    let mut wider = declared;
    wider.columns[1] = column("name", "String", Some(50));
    assert_eq!(
        sync_tables(&vec![wider], &vec![live], "").statements,
        vec![
            s("ALTER TABLE \"public\".\"user\" ALTER COLUMN name TYPE VARCHAR(50)"),
            s("ALTER TABLE \"public\".\"user\" ALTER COLUMN name SET NOT NULL"),
        ]
    );
}

#[test]
fn reported_date_and_time_columns_reconcile_with_their_declaration() {
    let row = |name: &str, data_type: &str| Col {
        column_name: s(name),
        column_default: None,
        is_nullable: s("NO"),
        data_type: s(data_type),
        character_maximum_length: None,
        primarykey: false,
    };
    let rows = vec![
        row("day", "date"),
        row("day2", "date"),
        row("at", "timestamp without time zone"),
        row("at2", "timestamp without time zone"),
        row("hour", "time without time zone"),
        row("hour2", "time without time zone"),
        row("flag", "boolean"),
        row("ratio", "double precision"),
        row("small", "smallint"),
        row("n", "integer"),
        row("x", "real"),
    ];
    let live = easy_sqlx_core::introspect::live_table(&s("times"), &s("public"), &rows, &vec![]).unwrap();
    let declared = TableSchema {
        name: s("times"),
        columns: vec![
            column("day", "NaiveDate", None),
            column("day2", "chrono::NaiveDate", None),
            column("at", "NaiveDateTime", None),
            column("at2", "chrono::NaiveDateTime", None),
            column("hour", "NaiveTime", None),
            column("hour2", "chrono::NaiveTime", None),
            column("flag", "bool", None),
            column("ratio", "f64", None),
            column("small", "i16", None),
            column("n", "i32", None),
            column("x", "f32", None),
        ],
        ..TableSchema::default()
    };
    let plan = sync_tables(&vec![declared], &vec![live], "");
    assert_eq!(plan.statements, Vec::<String>::new());
    assert_eq!(plan.error, None);
}

#[test]
fn reported_two_column_index_reconciles_with_its_declaration() {
    let index_rows = vec![
        Idx { indexname: s("user_pkey"), indexdef: s("CREATE UNIQUE INDEX user_pkey ON public.\"user\" USING btree (id)") },
        Idx {
            indexname: s("user_idx_name_created_at"),
            indexdef: s("CREATE INDEX user_idx_name_created_at ON public.\"user\" USING btree (name, created_at)"),
        },
    ];
    let live = easy_sqlx_core::introspect::live_table(&s("user"), &s("public"), &reported_user_rows(), &index_rows).unwrap();
    let reported = live.indexes.clone().unwrap();
    assert_eq!(reported.len(), 1);
    assert_eq!(reported[0].columns, vec![s("name"), s("created_at")]);
    let mut declared = declared_user();
    declared.trim_indexes = true;
    declared.add_index(index("", &["name", "created_at"], false)).unwrap();
    let first = sync_tables(&vec![declared.clone()], &vec![], "");
    assert_eq!(
        first.statements[1],
        "CREATE INDEX \"user_idx_name_created_at\" ON \"public\".\"user\" (name,created_at)"
    );
    let second = sync_tables(&vec![declared], &vec![live], "");
    assert_eq!(second.statements, Vec::<String>::new());
    assert_eq!(second.error, None);
}

fn statements_of<S: Schema>(dialect: &S, declared: &Vec<TableSchema>) -> Vec<String> {
    let mut all = plan_tables(dialect, declared, &vec![]).statements;
    all.push(dialect.sql_drop_table(&declared[0]));
    all.push(dialect.quoter().quote(&dialect.table_name_with_schema(&declared[0])));
    all
}

#[test]
fn planning_asks_the_dialect_for_every_statement() {
    assert_eq!(
        statements_of(&new(s("app")), &vec![user(30)]),
        vec![
            s(CREATE_USER).replace("\"public\"", "\"app\""),
            s("DROP TABLE IF EXISTS \"app\".\"user\""),
            s("\"app\".\"user\""),
        ]
    );
}

#[test]
fn new_tag_rebuilds_the_table_before_it_is_planned() {
    let mut tagged = user(50);
    tagged.recreate = Some(s("v2"));
    let other = note(Some(20));
    let live = vec![as_live(&user(30)), as_live(&note(Some(10)))];
    let pass = sync_pass(&vec![tagged.clone(), other.clone()], &vec![vec![s("v1")], vec![]], &live, "");
    assert_eq!(pass.rebuilds.len(), 1);
    assert_eq!(pass.rebuilds[0].drop_sql, "DROP TABLE IF EXISTS \"public\".\"user\"");
    assert_eq!(pass.rebuilds[0].table_name, "public.user");
    assert_eq!(pass.rebuilds[0].tag, "recreate");
    assert_eq!(pass.rebuilds[0].value, "v2");
    assert_eq!(pass.plan.error, None);
    assert_eq!(
        pass.plan.statements,
        vec![
            s(CREATE_USER).replace("VARCHAR(30)", "VARCHAR(50)"),
            s("ALTER TABLE \"public\".\"note\" ALTER COLUMN body TYPE VARCHAR(20)"),
        ]
    );
    let again = sync_pass(&vec![tagged, other], &vec![vec![s("v2"), s("v1")], vec![]], &live, "");
    assert_eq!(again.rebuilds.len(), 0);
    assert_eq!(
        again.plan.statements,
        vec![
            s("ALTER TABLE \"public\".\"user\" ALTER COLUMN name TYPE VARCHAR(50)"),
            s("ALTER TABLE \"public\".\"note\" ALTER COLUMN body TYPE VARCHAR(20)"),
        ]
    );
}

#[test]
fn table_without_ledger_entry_has_nothing_recorded() {
    let mut tagged = user(30);
    tagged.recreate = Some(s("v1"));
    let live = vec![as_live(&user(30))];
    let pass = sync_pass(&vec![user(30), tagged.clone()], &vec![vec![s("v1")]], &live, "");
    assert_eq!(pass.rebuilds.len(), 1);
    assert_eq!(pass.plan.statements, vec![s(CREATE_USER), s(CREATE_USER)]);
    let pass = sync_pass(&vec![tagged.clone()], &vec![], &live, "");
    assert_eq!(pass.rebuilds.len(), 1);
    let pass = sync_pass(&vec![tagged], &vec![vec![s("v1")], vec![s("extra")]], &live, "");
    assert_eq!(pass.rebuilds.len(), 0);
    assert_eq!(pass.plan.statements, Vec::<String>::new());
}

#[test]
fn failed_pass_rebuilds_nothing() {
    let mut tagged = user(30);
    tagged.recreate = Some(s("v2"));
    let live = vec![as_live(&user(30)), as_live(&note(Some(10)))];
    let pass = sync_pass(&vec![tagged.clone(), note(None)], &vec![vec![], vec![]], &live, "");
    assert_eq!(pass.rebuilds.len(), 0);
    assert_eq!(pass.plan.statements, Vec::<String>::new());
    assert_eq!(
        pass.plan.error,
        Some(SchemaError::MissingLength { column: s("body"), table: s("\"public\".\"note\"") })
    );
    let empty = TableSchema { name: s("empty"), ..TableSchema::default() };
    let pass = sync_pass(&vec![tagged, empty], &vec![vec![], vec![]], &live, "");
    assert_eq!(pass.rebuilds.len(), 0);
    assert_eq!(pass.plan.statements, Vec::<String>::new());
    assert_eq!(pass.plan.error, Some(SchemaError::EmptyTableDefinition(s("empty"))));
}

#[test]
fn rebuilt_table_with_missing_length_is_created_anew() {
    let mut tagged = note(None);
    tagged.recreate = Some(s("v1"));
    let live = vec![as_live(&note(Some(10)))];
    let pass = sync_pass(&vec![tagged], &vec![vec![]], &live, "");
    assert_eq!(pass.rebuilds.len(), 1);
    assert_eq!(pass.plan.error, None);
    assert_eq!(
        pass.plan.statements,
        vec![s("CREATE TABLE IF NOT EXISTS \"public\".\"note\" (\"body\" VARCHAR(255) NOT NULL )")]
    );
}
