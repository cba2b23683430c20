//! The live schema, as the catalog of the database reports it.
//!
//! The caller runs the queries of this module and hands back the rows;
//! the module turns rows into the columns, indexes and tables that the
//! declared schema is compared with.

use vstd::prelude::*;
use vstd::string::*;
use crate::column::{copy_text, Column, ColumnView};
use crate::context::{Context, ContextView};
use crate::error::{SchemaError, SchemaErrorView};
use crate::index::{indexes_view, Index, IndexView};
use crate::pattern::{captures, first_match, groups_view};
use crate::postgres::type_relations_spec;
use crate::table::{TableSchema, TableView};
use crate::text::{
    ends_with, has_prefix, has_suffix, lowercase, opt_view, same_text, split, split_at,
    starts_with, to_lowercase, trim_all, trimmed_all, uppercase, views,
};
use crate::types::{
    find_relation_answering, parsed_type, relation_answering, SqlType, SqlTypeView,
};
use crate::value::{Query, QueryView, Value, ValueView};

verus! {

/// The expression that finds the column list in the definition of an index.
pub const INDEX_COLUMNS_PATTERN: &'static str = r#"\((\s*\w+\s*[,\s*\w+\s*]*)\)"#;

/// The question whether a table exists, asked of every namespace.
pub const TABLE_EXISTS_QUERY: &'static str =
    "SELECT EXISTS (SELECT FROM information_schema.tables WHERE table_name = $1)";

/// The question whether a table exists in one namespace.
pub const TABLE_EXISTS_IN_SCHEMA_QUERY: &'static str =
    "SELECT EXISTS (SELECT FROM information_schema.tables WHERE table_schema = $1 AND table_name = $2)";

/// The tables of every namespace.
pub const TABLES_QUERY: &'static str = "select tablename, schemaname from pg_tables";

/// The tables of one namespace.
pub const TABLES_IN_SCHEMA_QUERY: &'static str =
    "select tablename, schemaname from pg_tables where schemaname=$1";

/// The columns of a table, up to the place of the namespace filter.
pub const COLUMNS_QUERY_HEAD: &'static str =
    "SELECT column_name, column_default, is_nullable, data_type, character_maximum_length, CASE WHEN p.contype = 'p' THEN true ELSE false END AS primarykey, CASE WHEN p.contype = 'u' THEN true ELSE false END AS uniquekey FROM pg_attribute f JOIN pg_class c ON c.oid = f.attrelid JOIN pg_type t ON t.oid = f.atttypid LEFT JOIN pg_attrdef d ON d.adrelid = c.oid AND d.adnum = f.attnum LEFT JOIN pg_namespace n ON n.oid = c.relnamespace LEFT JOIN pg_constraint p ON p.conrelid = c.oid AND f.attnum = ANY (p.conkey) LEFT JOIN pg_class AS g ON p.confrelid = g.oid LEFT JOIN INFORMATION_SCHEMA.COLUMNS s ON s.column_name=f.attname AND c.relname=s.table_name WHERE n.nspname= s.table_schema AND c.relkind = 'r'::char AND c.relname = $1 ";

/// The namespace filter of the columns query.
pub const COLUMNS_QUERY_SCHEMA: &'static str = "AND s.table_schema = $2";

/// The columns query from the namespace filter on.
pub const COLUMNS_QUERY_TAIL: &'static str = " AND f.attnum > 0 ORDER BY f.attnum;";

/// The indexes of a table in every namespace.
pub const INDEXES_QUERY: &'static str =
    "SELECT indexname, indexdef FROM pg_indexes WHERE tablename=$1";

/// The indexes of a table in one namespace.
pub const INDEXES_IN_SCHEMA_QUERY: &'static str =
    "SELECT indexname, indexdef FROM pg_indexes WHERE tablename=$1 AND schemaname = $2";

/// A row of the table catalog.
#[derive(Debug, Default)]
pub struct Table {
    pub tablename: String,
    pub schemaname: String,
}

/// A row of the column catalog.
#[derive(Debug, Default)]
pub struct Col {
    pub column_name: String,
    pub column_default: Option<String>,
    pub is_nullable: String,
    pub data_type: String,
    pub character_maximum_length: Option<i32>,
    pub primarykey: bool,
}

/// A row of the column catalog as plain values.
pub struct ColView {
    pub column_name: Seq<char>,
    pub column_default: Option<Seq<char>>,
    pub is_nullable: Seq<char>,
    pub data_type: Seq<char>,
    pub character_maximum_length: Option<i32>,
    pub primarykey: bool,
}

impl View for Col {
    type V = ColView;

    open spec fn view(&self) -> ColView {
        ColView {
            column_name: self.column_name@,
            column_default: opt_view(self.column_default),
            is_nullable: self.is_nullable@,
            data_type: self.data_type@,
            character_maximum_length: self.character_maximum_length,
            primarykey: self.primarykey,
        }
    }
}

/// The views of a list of column rows.
pub open spec fn cols_view(rows: Seq<Col>) -> Seq<ColView> {
    rows.map_values(|c: Col| c@)
}

/// A row of the index catalog.
#[derive(Debug, Default)]
pub struct Idx {
    pub indexname: String,
    pub indexdef: String,
}

/// A row of the index catalog as plain values.
pub struct IdxView {
    pub indexname: Seq<char>,
    pub indexdef: Seq<char>,
}

impl View for Idx {
    type V = IdxView;

    open spec fn view(&self) -> IdxView {
        IdxView { indexname: self.indexname@, indexdef: self.indexdef@ }
    }
}

/// The views of a list of index rows.
pub open spec fn idxs_view(rows: Seq<Idx>) -> Seq<IdxView> {
    rows.map_values(|i: Idx| i@)
}

/// Whether a default is the next value of a sequence: it begins with
/// `nextval(` and ends with `::regclass)`, in either case of the letters.
pub open spec fn is_sequence_default(value: Seq<char>) -> bool {
    starts_with(lowercase(value), "nextval("@) && ends_with(lowercase(value), "::regclass)"@)
}

/// Whether a row says that its column is numbered by the database.
pub open spec fn row_is_autoincr(row: ColView) -> bool {
    is_sequence_default(
        match row.column_default {
            Some(value) => value,
            None => Seq::empty(),
        },
    )
}

/// The type of a reported column: the SQL type that a declaration
/// would get, with the reported length, or with the default length of
/// the relation where none is reported; where no relation answers, the
/// reported name taken as it is.
pub open spec fn reported_type(row: ColView) -> SqlTypeView {
    match relation_answering(type_relations_spec(), uppercase(row.data_type)) {
        Some(rel) => match row.character_maximum_length {
            Some(len) => SqlTypeView {
                name: rel.sql,
                len: Some(len as isize),
                len2: None,
                fixed_len: if len == 1 {
                    Some(1isize)
                } else {
                    None
                },
            },
            None => SqlTypeView {
                name: rel.sql,
                len: rel.default_len,
                len2: None,
                fixed_len: None,
            },
        },
        None => parsed_type(row.data_type),
    }
}

/// The column that a row of the column catalog reports. A default
/// that is the next value of a sequence makes the column autoincrement
/// and is not reported as a default.
pub open spec fn reported_column(row: ColView) -> ColumnView {
    ColumnView {
        name: Seq::empty(),
        column: Some(row.column_name),
        col_type: None,
        typ: reported_type(row),
        ignore: false,
        pk: row.primarykey,
        autoincr: row_is_autoincr(row),
        comment: None,
        nullable: lowercase(row.is_nullable) == "yes"@,
        default: if row_is_autoincr(row) {
            None
        } else {
            row.column_default
        },
        from: None,
        replace: false,
    }
}

/// The columns that the rows report.
pub open spec fn reported_columns(rows: Seq<ColView>) -> Seq<ColumnView> {
    rows.map_values(|r: ColView| reported_column(r))
}

/// Whether an index is that of the primary key, which is left out.
pub open spec fn is_primary_index(name: Seq<char>) -> bool {
    lowercase(name) == "primary"@ || ends_with(lowercase(name), "_pkey"@)
}

/// The column list in what the pattern found: the first group.
pub open spec fn found_columns(found: Option<Seq<Option<Seq<char>>>>) -> Option<Seq<char>> {
    match found {
        Some(groups) => if groups.len() == 2 && groups[1] is Some {
            groups[1]
        } else {
            None
        },
        None => None,
    }
}

/// The index that a row reports, given what the pattern found in its
/// definition: the columns are the pieces of the list cut at commas,
/// each without the white space around it, and the index is unique
/// where its definition begins with `create unique index`.
pub open spec fn reported_index(row: IdxView, fields: Seq<char>) -> IndexView {
    IndexView {
        name: row.indexname,
        unique: starts_with(lowercase(row.indexdef), "create unique index"@),
        columns: trimmed_all(split(fields, ',')),
    }
}

/// What a row of the index catalog gives, given what the pattern found
/// in its definition: nothing for the index of the primary key, an index
/// where the definition holds a column list, else a failure.
pub open spec fn index_of_row(row: IdxView, found: Option<Seq<Option<Seq<char>>>>) -> Result<
    Option<IndexView>,
    SchemaErrorView,
> {
    if is_primary_index(row.indexname) {
        Ok(None)
    } else {
        match found_columns(found) {
            Some(fields) => Ok(Some(reported_index(row, fields))),
            None => Err(SchemaErrorView::IntrospectionFailed(row.indexname)),
        }
    }
}

/// What a row of the index catalog gives.
pub open spec fn index_of(row: IdxView) -> Result<Option<IndexView>, SchemaErrorView> {
    index_of_row(row, first_match(INDEX_COLUMNS_PATTERN@, row.indexdef))
}

/// The indexes that the first `n` rows report, or the failure of the
/// first row that fails.
pub open spec fn reported_indexes(rows: Seq<IdxView>, n: int) -> Result<
    Seq<IndexView>,
    SchemaErrorView,
>
    decreases n,
{
    if n <= 0 || n > rows.len() {
        Ok(Seq::empty())
    } else {
        match reported_indexes(rows, n - 1) {
            Ok(before) => match index_of(rows[n - 1]) {
                Ok(Some(index)) => Ok(before.push(index)),
                Ok(None) => Ok(before),
                Err(e) => Err(e),
            },
            Err(e) => Err(e),
        }
    }
}

/// The namespace that a query is asked of: the one given, else the default.
pub open spec fn asked_schema(ctx: ContextView, schema: Option<Seq<char>>) -> Seq<char> {
    match schema {
        Some(s) => s,
        None => ctx.default_schema,
    }
}

/// A text as a value of a statement.
pub open spec fn text_value(s: Seq<char>) -> ValueView {
    ValueView::Text(Some(s))
}

/// A query by table name, asked of one namespace or of all.
pub open spec fn table_query(all: Seq<char>, one: Seq<char>, table: Seq<char>, schema: Seq<char>) -> QueryView {
    if schema.len() == 0 {
        QueryView { sql: all, args: seq![text_value(table)] }
    } else {
        QueryView { sql: one, args: seq![text_value(table), text_value(schema)] }
    }
}

/// Whether a default is the next value of a sequence.
pub fn is_autoincr(default_value: &String) -> (r: bool)
    ensures
        r == is_sequence_default(default_value@),
{
    let lower = to_lowercase(default_value.as_str());
    has_prefix(lower.as_str(), "nextval(") && has_suffix(lower.as_str(), "::regclass)")
}

fn text_arg(s: &String) -> (r: Value)
    ensures
        r@ == text_value(s@),
{
    Value::Text(Some(s.clone()))
}

fn query_of(sql: &str, first: &String, second: Option<&String>) -> (r: Query)
    ensures
        r@.sql == sql@,
        r@.args == (match second {
            Some(s) => seq![text_value(first@), text_value(s@)],
            None => seq![text_value(first@)],
        }),
{
    let mut args: Vec<Value> = Vec::new();
    args.push(text_arg(first));
    if let Some(s) = second {
        args.push(text_arg(s));
    }
    let q = Query { sql: String::from_str(sql), args };
    proof {
        match second {
            Some(s) => {
                assert(q@.args =~= seq![text_value(first@), text_value(s@)]);
            },
            None => {
                assert(q@.args =~= seq![text_value(first@)]);
            },
        }
    }
    q
}

impl Col {
    /// The column that the row reports.
    pub fn to_column(&self) -> (r: Column)
        ensures
            r@ == reported_column(self@),
    {
        let sql_type = match find_relation_answering(&self.data_type) {
            Ok(rel) => match self.character_maximum_length {
                Some(len) => SqlType {
                    name: String::from_str(rel.sql),
                    len: Some(len as isize),
                    len2: None,
                    fixed_len: if len == 1 {
                        Some(1)
                    } else {
                        None
                    },
                },
                None => SqlType {
                    name: String::from_str(rel.sql),
                    len: rel.default_len,
                    len2: None,
                    fixed_len: None,
                },
            },
            Err(_) => SqlType::parse(&self.data_type),
        };
        let autoincr = match &self.column_default {
            Some(value) => is_autoincr(value),
            None => is_autoincr(&String::new()),
        };
        let lower = to_lowercase(self.is_nullable.as_str());
        Column {
            name: String::new(),
            column: Some(self.column_name.clone()),
            col_type: None,
            typ: sql_type,
            ignore: false,
            pk: self.primarykey,
            autoincr,
            comment: None,
            nullable: same_text(lower.as_str(), "yes"),
            default: if autoincr {
                None
            } else {
                copy_text(&self.column_default)
            },
            from: None,
            replace: false,
        }
    }
}

impl Idx {
    /// What the row gives, given what the pattern for column lists
    /// found in its definition.
    pub fn to_index_with(&self, found: &Option<Vec<Option<String>>>) -> (r: Result<
        Option<Index>,
        SchemaError,
    >)
        ensures
            match index_of_row(
                self@,
                match found {
                    Some(groups) => Some(groups_view(groups@)),
                    None => None,
                },
            ) {
                Ok(Some(index)) => r is Ok && r->Ok_0 is Some && r->Ok_0->0@ == index,
                Ok(None) => r is Ok && r->Ok_0 is None,
                Err(e) => r is Err && r->Err_0@ == e,
            },
    {
        let lower = to_lowercase(self.indexname.as_str());
        if same_text(lower.as_str(), "primary") || has_suffix(lower.as_str(), "_pkey") {
            return Ok(None);
        }
        if let Some(groups) = found {
            if groups.len() == 2 {
                if let Some(fields) = &groups[1] {
                    assert(groups_view(groups@)[1] == Some(fields@));
                    let definition = to_lowercase(self.indexdef.as_str());
                    let index = Index {
                        name: self.indexname.clone(),
                        unique: has_prefix(definition.as_str(), "create unique index"),
                        columns: trim_all(&split_at(fields.as_str(), ',')),
                    };
                    return Ok(Some(index));
                } else {
                    assert(groups_view(groups@)[1] is None);
                }
            }
        }
        Err(SchemaError::IntrospectionFailed(self.indexname.clone()))
    }

    /// What the row gives: nothing for the index of the primary key, an
    /// index where the definition holds a column list, else a failure.
    pub fn to_index(&self) -> (r: Result<Option<Index>, SchemaError>)
        ensures
            match index_of(self@) {
                Ok(Some(index)) => r is Ok && r->Ok_0 is Some && r->Ok_0->0@ == index,
                Ok(None) => r is Ok && r->Ok_0 is None,
                Err(e) => r is Err && r->Err_0@ == e,
            },
    {
        let found = captures(INDEX_COLUMNS_PATTERN, self.indexdef.as_str());
        self.to_index_with(&found)
    }
}

/// The query that asks whether the table `table_name` exists in the
/// namespace `schema`, or in the default one where `schema` is empty.
pub fn is_table_exists(context: &Context, table_name: String, schema: String) -> (r: Query)
    ensures
        r@ == (if asked_schema(
            context@,
            if schema@.len() == 0 {
                None
            } else {
                Some(schema@)
            },
        ).len() == 0 {
            QueryView { sql: TABLE_EXISTS_QUERY@, args: seq![text_value(table_name@)] }
        } else {
            QueryView {
                sql: TABLE_EXISTS_IN_SCHEMA_QUERY@,
                args: seq![
                    text_value(
                        asked_schema(
                            context@,
                            if schema@.len() == 0 {
                                None
                            } else {
                                Some(schema@)
                            },
                        ),
                    ),
                    text_value(table_name@),
                ],
            }
        }),
{
    let schema_name = if schema.as_str().is_empty() {
        context.get_default_schema()
    } else {
        schema
    };
    if schema_name.as_str().is_empty() {
        query_of(TABLE_EXISTS_QUERY, &table_name, None)
    } else {
        query_of(TABLE_EXISTS_IN_SCHEMA_QUERY, &schema_name, Some(&table_name))
    }
}

/// The query that lists the tables of the default namespace, or of
/// every namespace where there is no default.
pub fn get_tables(context: &Context) -> (r: Query)
    ensures
        r@ == (if context@.default_schema.len() == 0 {
            QueryView { sql: TABLES_QUERY@, args: Seq::empty() }
        } else {
            QueryView {
                sql: TABLES_IN_SCHEMA_QUERY@,
                args: seq![text_value(context@.default_schema)],
            }
        }),
{
    let schema = context.get_default_schema();
    if schema.as_str().is_empty() {
        let q = Query { sql: String::from_str(TABLES_QUERY), args: Vec::new() };
        assert(q@.args =~= Seq::empty());
        q
    } else {
        query_of(TABLES_IN_SCHEMA_QUERY, &schema, None)
    }
}

/// The text of the columns query, with or without the namespace filter.
pub open spec fn columns_query_text(with_schema: bool) -> Seq<char> {
    COLUMNS_QUERY_HEAD@ + (if with_schema {
        COLUMNS_QUERY_SCHEMA@
    } else {
        Seq::empty()
    }) + COLUMNS_QUERY_TAIL@
}

/// The query that lists the columns of `table` in the namespace
/// `schema`, or in the default one where none is given.
pub fn get_columns_query(context: &Context, table: &String, schema: Option<String>) -> (r: Query)
    ensures
        r@ == table_query(
            columns_query_text(false),
            columns_query_text(true),
            table@,
            asked_schema(context@, opt_view(schema)),
        ),
{
    let schema_name = match schema {
        Some(s) => s,
        None => context.get_default_schema(),
    };
    let mut sql = String::from_str(COLUMNS_QUERY_HEAD);
    if schema_name.as_str().is_empty() {
        sql.append(COLUMNS_QUERY_TAIL);
        assert(sql@ =~= columns_query_text(false));
        query_of(sql.as_str(), table, None)
    } else {
        sql.append(COLUMNS_QUERY_SCHEMA);
        sql.append(COLUMNS_QUERY_TAIL);
        assert(sql@ =~= columns_query_text(true));
        query_of(sql.as_str(), table, Some(&schema_name))
    }
}

/// The query that lists the indexes of `table` in the namespace
/// `schema`, or in the default one where none is given.
pub fn get_indexes_query(context: &Context, table: &String, schema: Option<String>) -> (r: Query)
    ensures
        r@ == table_query(
            INDEXES_QUERY@,
            INDEXES_IN_SCHEMA_QUERY@,
            table@,
            asked_schema(context@, opt_view(schema)),
        ),
{
    let schema_name = match schema {
        Some(s) => s,
        None => context.get_default_schema(),
    };
    if schema_name.as_str().is_empty() {
        query_of(INDEXES_QUERY, table, None)
    } else {
        query_of(INDEXES_IN_SCHEMA_QUERY, table, Some(&schema_name))
    }
}

/// The names and namespaces that the rows of the table catalog report.
pub open spec fn reported_names(rows: Seq<Table>) -> Seq<(Seq<char>, Seq<char>)> {
    rows.map_values(|t: Table| (t.tablename@, t.schemaname@))
}

/// The views of a list of names with their namespaces.
pub open spec fn names_view(list: Seq<(String, String)>) -> Seq<(Seq<char>, Seq<char>)> {
    list.map_values(|p: (String, String)| (p.0@, p.1@))
}

/// The name and the namespace of each table that the rows report.
pub fn get_table_names(rows: &Vec<Table>) -> (r: Vec<(String, String)>)
    ensures
        names_view(r@) == reported_names(rows@),
{
    let mut out: Vec<(String, String)> = Vec::new();
    let mut i: usize = 0;
    while i < rows.len()
        invariant
            i <= rows.len(),
            names_view(out@) == reported_names(rows@).take(i as int),
        decreases rows.len() - i,
    {
        let ghost before = out@;
        let item = (rows[i].tablename.clone(), rows[i].schemaname.clone());
        out.push(item);
        proof {
            assert(names_view(out@) =~= names_view(before).push((item.0@, item.1@)));
            assert(names_view(out@) =~= reported_names(rows@).take(i + 1));
        }
        i += 1;
    }
    assert(reported_names(rows@).take(rows.len() as int) =~= reported_names(rows@));
    out
}

/// The columns that the rows of the column catalog report.
pub fn get_columns(rows: &Vec<Col>) -> (r: Vec<Column>)
    ensures
        crate::column::columns_view(r@) == reported_columns(cols_view(rows@)),
{
    let ghost all = reported_columns(cols_view(rows@));
    let mut cols: Vec<Column> = Vec::new();
    let mut i: usize = 0;
    while i < rows.len()
        invariant
            i <= rows.len(),
            all == reported_columns(cols_view(rows@)),
            crate::column::columns_view(cols@) == all.take(i as int),
        decreases rows.len() - i,
    {
        let ghost before = cols@;
        let col = rows[i].to_column();
        cols.push(col);
        proof {
            assert(crate::column::columns_view(cols@) =~= crate::column::columns_view(before).push(
                col@,
            ));
            assert(crate::column::columns_view(cols@) =~= all.take(i + 1));
        }
        i += 1;
    }
    assert(all.take(rows.len() as int) =~= all);
    cols
}

/// The indexes that the rows of the index catalog report, the index
/// of the primary key left out. Fails at the first row whose definition
/// holds no column list.
pub fn get_indexes(rows: &Vec<Idx>) -> (r: Result<Vec<Index>, SchemaError>)
    ensures
        match reported_indexes(idxs_view(rows@), rows@.len() as int) {
            Ok(list) => r is Ok && indexes_view(r->Ok_0@) == list,
            Err(e) => r is Err && r->Err_0@ == e,
        },
{
    let ghost all = idxs_view(rows@);
    let mut indexes: Vec<Index> = Vec::new();
    let mut i: usize = 0;
    proof {
        assert(indexes_view(indexes@) =~= Seq::<IndexView>::empty());
    }
    while i < rows.len()
        invariant
            i <= rows.len(),
            all == idxs_view(rows@),
            reported_indexes(all, i as int) == Ok::<Seq<IndexView>, SchemaErrorView>(
                indexes_view(indexes@),
            ),
        decreases rows.len() - i,
    {
        assert(all[i as int] == rows@[i as int]@);
        match rows[i].to_index() {
            Ok(Some(index)) => {
                let ghost before = indexes@;
                indexes.push(index);
                assert(indexes_view(indexes@) =~= indexes_view(before).push(index@));
            },
            Ok(None) => {},
            Err(e) => {
                proof {
                    lemma_reported_indexes_fail(all, i + 1, rows@.len() as int);
                }
                return Err(e);
            },
        }
        i += 1;
    }
    Ok(indexes)
}

proof fn lemma_reported_indexes_fail(rows: Seq<IdxView>, n: int, m: int)
    requires
        0 <= n <= m <= rows.len(),
        reported_indexes(rows, n) is Err,
    ensures
        reported_indexes(rows, m) == reported_indexes(rows, n),
    decreases m - n,
{
    if n < m {
        lemma_reported_indexes_fail(rows, n, m - 1);
    }
}

/// The live table of the name `name` in the namespace `schema`, with
/// the columns and indexes that the catalog rows report. A table
/// without indexes has none, not an empty list.
pub fn live_table(name: &String, schema: &String, columns: &Vec<Col>, indexes: &Vec<Idx>) -> (r:
    Result<TableSchema, SchemaError>)
    ensures
        match reported_indexes(idxs_view(indexes@), indexes@.len() as int) {
            Ok(list) => r is Ok && r->Ok_0@ == (TableView {
                name: name@,
                schema: Some(schema@),
                comment: None,
                indexes: if list.len() > 0 {
                    Some(list)
                } else {
                    None
                },
                columns: reported_columns(cols_view(columns@)),
                from: None,
                recreate: None,
                trim_columns: false,
                trim_indexes: false,
            }),
            Err(e) => r is Err && r->Err_0@ == e,
        },
{
    let cols = get_columns(columns);
    match get_indexes(indexes) {
        Ok(list) => {
            Ok(
                TableSchema {
                    name: name.clone(),
                    schema: Some(schema.clone()),
                    comment: None,
                    indexes: if list.len() > 0 {
                        Some(list)
                    } else {
                        None
                    },
                    columns: cols,
                    from: None,
                    recreate: None,
                    trim_columns: false,
                    trim_indexes: false,
                },
            )
        },
        Err(e) => Err(e),
    }
}

} // verus!
