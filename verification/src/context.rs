//! The statements that change a schema, written for one dialect.

use vstd::prelude::*;
use vstd::string::*;
use crate::column::{column_name, same_column, same_opt_text, Column, ColumnView};
use crate::error::{SchemaError, SchemaErrorView};
use crate::index::{Index, IndexView};
use crate::postgres::{canonical, canonical_name, converted, effective_type};
use crate::sql_types;
use crate::types::{SqlType, SqlTypeView};
use crate::quote::{quoted, QuotePolicy, Quoter, QuoterView};
use crate::text::{
    contains_char, eq_ignoring_case, join, join_strings, same_ignoring_case, same_text, views,
};

verus! {

/// The namespace that a table lives in where none is named.
pub const DEFAULT_SCHEMA: &'static str = "public";

/// The default namespace of a database and the quoter of its dialect.
#[derive(Debug)]
pub struct Context {
    default_schema: String,
    quoter: Quoter,
}

/// A context as plain values.
pub struct ContextView {
    pub default_schema: Seq<char>,
    pub quoter: QuoterView,
}

impl View for Context {
    type V = ContextView;

    closed spec fn view(&self) -> ContextView {
        ContextView { default_schema: self.default_schema@, quoter: self.quoter@ }
    }
}

/// The quoter of the dialect: double quotes round every word.
pub open spec fn dialect_quoter() -> QuoterView {
    QuoterView {
        prefix: 34,
        suffix: 34,
        policy: QuotePolicy::QuotePolicyAlways,
        reserved: Seq::empty(),
    }
}

/// A table name with the default namespace in front, unless there is
/// no default or the name holds a period already.
pub open spec fn with_default_schema(ctx: ContextView, name: Seq<char>) -> Seq<char> {
    if ctx.default_schema.len() > 0 && !name.contains('.') {
        ctx.default_schema + "."@ + name
    } else {
        name
    }
}

/// A table as a statement names it: with its namespace, and quoted.
pub open spec fn table_ref(ctx: ContextView, table_name: Seq<char>) -> Seq<char> {
    quoted(ctx.quoter, with_default_schema(ctx, table_name))
}

/// Whether two table names denote the same table: with the default
/// namespace in front of both, and whatever the case of the letters.
pub open spec fn same_table_name(ctx: ContextView, a: Seq<char>, b: Seq<char>) -> bool {
    same_ignoring_case(with_default_schema(ctx, a), with_default_schema(ctx, b))
}

/// The `PRIMARY KEY` clause of a column definition.
pub open spec fn primary_key_clause(col: ColumnView, inline_pk: bool) -> Seq<char> {
    if inline_pk && col.pk {
        "PRIMARY KEY "@
    } else {
        Seq::empty()
    }
}

/// The autoincrement keyword of a column definition.
pub open spec fn autoincrement_clause(col: ColumnView, keyword: Option<Seq<char>>) -> Seq<char> {
    match keyword {
        Some(word) => if col.autoincr {
            word + " "@
        } else {
            Seq::empty()
        },
        None => Seq::empty(),
    }
}

/// The `DEFAULT` clause of a column definition.
pub open spec fn default_clause(col: ColumnView) -> Seq<char> {
    match col.default {
        Some(value) => "DEFAULT "@ + value + " "@,
        None => Seq::empty(),
    }
}

/// The `NULL` or `NOT NULL` clause of a column definition.
pub open spec fn null_clause(col: ColumnView) -> Seq<char> {
    if col.nullable {
        "NULL "@
    } else {
        "NOT NULL "@
    }
}

/// The definition of a column whose type is written `type_text`: its
/// quoted name, the type, and the clauses for primary key,
/// autoincrement, default and nullability, each followed by a space.
pub open spec fn column_definition_of(
    ctx: ContextView,
    col: ColumnView,
    type_text: Seq<char>,
    inline_pk: bool,
    keyword: Option<Seq<char>>,
) -> Seq<char> {
    quoted(ctx.quoter, column_name(col)) + " "@ + type_text + " "@ + primary_key_clause(
        col,
        inline_pk,
    ) + autoincrement_clause(col, keyword) + default_clause(col) + null_clause(col)
}

/// The definition of a column with its type as the dialect writes it.
pub open spec fn column_definition(
    ctx: ContextView,
    col: ColumnView,
    inline_pk: bool,
    keyword: Option<Seq<char>>,
) -> Seq<char> {
    column_definition_of(ctx, col, converted(col), inline_pk, keyword)
}

/// The statement that adds a column whose type is written `type_text`.
pub open spec fn add_column_statement_of(
    ctx: ContextView,
    table_name: Seq<char>,
    col: ColumnView,
    type_text: Seq<char>,
    keyword: Option<Seq<char>>,
) -> Seq<char> {
    "ALTER TABLE "@ + table_ref(ctx, table_name) + " ADD COLUMN "@ + column_definition_of(
        ctx,
        col,
        type_text,
        false,
        keyword,
    )
}

/// The statement that adds a column, with its type as the dialect
/// writes it.
pub open spec fn add_column_statement(
    ctx: ContextView,
    table_name: Seq<char>,
    col: ColumnView,
    keyword: Option<Seq<char>>,
) -> Seq<char> {
    add_column_statement_of(ctx, table_name, col, converted(col), keyword)
}

/// The statement that drops a column, if it is there.
pub open spec fn drop_column_statement(
    ctx: ContextView,
    table_name: Seq<char>,
    column: Seq<char>,
) -> Seq<char> {
    "ALTER TABLE "@ + table_ref(ctx, table_name) + " DROP COLUMN IF EXISTS "@ + quoted(
        ctx.quoter,
        column,
    )
}

/// What every statement that alters a column begins with.
pub open spec fn alter_column_head(
    ctx: ContextView,
    table_name: Seq<char>,
    old: ColumnView,
) -> Seq<char> {
    "ALTER TABLE "@ + table_ref(ctx, table_name) + " ALTER COLUMN "@ + column_name(old)
}

/// Whether a type is one of the character types, which are written
/// with a length.
pub open spec fn is_character_type(t: SqlTypeView) -> bool {
    canonical_name(t.name) == sql_types::CHAR@ || canonical_name(t.name) == sql_types::VARCHAR@
}

/// Whether a type says how long it is: by a length, or by the fixed
/// length of its relation.
pub open spec fn has_length(t: SqlTypeView) -> bool {
    t.len is Some || t.fixed_len is Some
}

/// Whether a character type is to get another length and says none:
/// the written type changes from `old_text` to `new_text`, the column
/// keeps the name of its type, that type is a character type, and the
/// new column gives it no length.
pub open spec fn lacks_length_of(
    old: ColumnView,
    new: ColumnView,
    old_text: Seq<char>,
    new_text: Seq<char>,
) -> bool {
    old_text != new_text && is_character_type(effective_type(new)) && effective_type(new).name
        == effective_type(old).name && !has_length(effective_type(new))
}

/// The statement for the type, where what is written for it changes
/// from `old_text` to `new_text`: it sets the new type as it is written,
/// with the lengths it has.
pub open spec fn type_statements_of(
    ctx: ContextView,
    table_name: Seq<char>,
    old: ColumnView,
    old_text: Seq<char>,
    new_text: Seq<char>,
) -> Seq<Seq<char>> {
    if old_text == new_text {
        Seq::empty()
    } else {
        seq![alter_column_head(ctx, table_name, old) + " TYPE "@ + new_text]
    }
}

/// Whether the type that the dialect writes for the column changes.
pub open spec fn type_changes(old: ColumnView, new: ColumnView) -> bool {
    converted(old) != converted(new)
}

/// Whether a character type is to get another length and says none,
/// with the types as the dialect writes them.
pub open spec fn lacks_length(old: ColumnView, new: ColumnView) -> bool {
    lacks_length_of(old, new, converted(old), converted(new))
}

/// The statement for the type, where what the dialect writes for it
/// changes.
pub open spec fn type_statements(
    ctx: ContextView,
    table_name: Seq<char>,
    old: ColumnView,
    new: ColumnView,
) -> Seq<Seq<char>> {
    type_statements_of(ctx, table_name, old, converted(old), converted(new))
}

/// The statement for the default, where it changes and is not ignored.
pub open spec fn default_statements(
    ctx: ContextView,
    table_name: Seq<char>,
    old: ColumnView,
    new: ColumnView,
    ignore_default: bool,
) -> Seq<Seq<char>> {
    if ignore_default || old.default == new.default {
        Seq::empty()
    } else {
        match new.default {
            Some(value) => seq![
                alter_column_head(ctx, table_name, old) + " SET DEFAULT "@ + value,
            ],
            None => seq![alter_column_head(ctx, table_name, old) + " DROP DEFAULT"@],
        }
    }
}

/// The statement for the nullability, where it changes.
pub open spec fn null_statements(
    ctx: ContextView,
    table_name: Seq<char>,
    old: ColumnView,
    new: ColumnView,
) -> Seq<Seq<char>> {
    if old.nullable == new.nullable {
        Seq::empty()
    } else if new.nullable {
        seq![alter_column_head(ctx, table_name, old) + " DROP NOT NULL"@]
    } else {
        seq![alter_column_head(ctx, table_name, old) + " SET NOT NULL"@]
    }
}

/// The statements that turn the column `old` into `new`, where what
/// is written for the type changes from `old_text` to `new_text`: for
/// the type, then the default, then the nullability.
pub open spec fn alter_statements_of(
    ctx: ContextView,
    table_name: Seq<char>,
    old: ColumnView,
    new: ColumnView,
    old_text: Seq<char>,
    new_text: Seq<char>,
    ignore_default: bool,
) -> Seq<Seq<char>> {
    type_statements_of(ctx, table_name, old, old_text, new_text) + default_statements(
        ctx,
        table_name,
        old,
        new,
        ignore_default,
    ) + null_statements(ctx, table_name, old, new)
}

/// The statements that turn the column `old` into `new`, with the
/// types as the dialect writes them.
pub open spec fn alter_statements(
    ctx: ContextView,
    table_name: Seq<char>,
    old: ColumnView,
    new: ColumnView,
    ignore_default: bool,
) -> Seq<Seq<char>> {
    alter_statements_of(ctx, table_name, old, new, converted(old), converted(new), ignore_default)
}

/// What altering a column gives, where what is written for the type
/// changes from `old_text` to `new_text`: the statements, or the
/// failure for a character type without a length.
pub open spec fn altered_of(
    ctx: ContextView,
    table_name: Seq<char>,
    old: ColumnView,
    new: ColumnView,
    old_text: Seq<char>,
    new_text: Seq<char>,
    ignore_default: bool,
) -> Result<Seq<Seq<char>>, SchemaErrorView> {
    if lacks_length_of(old, new, old_text, new_text) {
        Err(
            SchemaErrorView::MissingLength {
                column: column_name(old),
                table: table_ref(ctx, table_name),
            },
        )
    } else {
        Ok(alter_statements_of(ctx, table_name, old, new, old_text, new_text, ignore_default))
    }
}

/// What a list of statements or a failure says, as plain values.
pub open spec fn statements_view(r: Result<Vec<String>, SchemaError>) -> Result<
    Seq<Seq<char>>,
    SchemaErrorView,
> {
    match r {
        Ok(sqls) => Ok(views(sqls@)),
        Err(e) => Err(e@),
    }
}

/// The statement that drops a table, if it is there.
pub open spec fn drop_table_statement(ctx: ContextView, table_name: Seq<char>) -> Seq<char> {
    "DROP TABLE IF EXISTS "@ + table_ref(ctx, table_name)
}

/// The word that makes an index unique.
pub open spec fn unique_word(unique: bool) -> Seq<char> {
    if unique {
        " UNIQUE"@
    } else {
        Seq::empty()
    }
}

/// The statement that creates an index.
pub open spec fn create_index_statement(
    ctx: ContextView,
    table_name: Seq<char>,
    index: IndexView,
) -> Seq<char> {
    "CREATE"@ + unique_word(index.unique) + " INDEX "@ + quoted(ctx.quoter, index.name) + " ON "@
        + table_ref(ctx, table_name) + " ("@ + join(index.columns, ","@) + ")"@
}

/// The statement that drops an index, if it is there.
pub open spec fn drop_index_statement(ctx: ContextView, index_name: Seq<char>) -> Seq<char> {
    "DROP INDEX IF EXISTS "@ + table_ref(ctx, index_name)
}

/// The statement that sets or drops `NOT NULL`, as the new column asks.
pub open spec fn null_statement(
    ctx: ContextView,
    table_name: Seq<char>,
    old: ColumnView,
    new: ColumnView,
) -> Seq<char> {
    if new.nullable {
        alter_column_head(ctx, table_name, old) + " DROP NOT NULL"@
    } else {
        alter_column_head(ctx, table_name, old) + " SET NOT NULL"@
    }
}

/// Two columns that differ in nullability alone are brought together
/// by one statement, which sets or drops `NOT NULL`; nothing is said of
/// the type or the default, and no length is missed.
pub proof fn law_nullability_alone(
    ctx: ContextView,
    table_name: Seq<char>,
    old: ColumnView,
    new: ColumnView,
    ignore_default: bool,
)
    requires
        old == (ColumnView { nullable: !new.nullable, ..new }),
    ensures
        !lacks_length(old, new),
        type_statements(ctx, table_name, old, new).len() == 0,
        default_statements(ctx, table_name, old, new, ignore_default).len() == 0,
        alter_statements(ctx, table_name, old, new, ignore_default) == seq![
            null_statement(ctx, table_name, old, new),
        ],
{
    assert(alter_statements(ctx, table_name, old, new, ignore_default) =~= seq![
        null_statement(ctx, table_name, old, new),
    ]);
}

/// Columns that are equal need no statement. Two columns without a
/// type given by hand that have the same name, the same type to the
/// dialect, and the same numbering, nullability and default are brought
/// together by nothing.
pub proof fn law_equal_columns_need_nothing(
    ctx: ContextView,
    table_name: Seq<char>,
    old: ColumnView,
    new: ColumnView,
    ignore_default: bool,
)
    requires
        same_column(old, new),
        old.col_type is None,
        new.col_type is None,
    ensures
        !lacks_length(old, new),
        alter_statements(ctx, table_name, old, new, ignore_default) == Seq::<Seq<char>>::empty(),
{
    assert(alter_statements(ctx, table_name, old, new, ignore_default) =~= Seq::<
        Seq<char>,
    >::empty());
}

/// A column is brought to itself by no statement.
pub proof fn law_same_column_needs_nothing(
    ctx: ContextView,
    table_name: Seq<char>,
    col: ColumnView,
    ignore_default: bool,
)
    ensures
        !lacks_length(col, col),
        alter_statements(ctx, table_name, col, col, ignore_default) == Seq::<Seq<char>>::empty(),
{
    assert(alter_statements(ctx, table_name, col, col, ignore_default) =~= Seq::<
        Seq<char>,
    >::empty());
}

/// Adds a statement to a list.
pub fn push_statement(list: &mut Vec<String>, statement: String)
    ensures
        views(final(list)@) == views(old(list)@).push(statement@),
{
    list.push(statement);
    assert(views(list@) =~= views(old(list)@).push(statement@));
}

impl Default for Context {
    fn default() -> (r: Self)
        ensures
            r@ == (ContextView { default_schema: DEFAULT_SCHEMA@, quoter: dialect_quoter() }),
    {
        Context {
            default_schema: String::from_str(DEFAULT_SCHEMA),
            quoter: Quoter::new(34, 34, QuotePolicy::QuotePolicyAlways),
        }
    }
}

impl Context {
    /// The context of a database whose default namespace is `schema`,
    /// or `public` where `schema` is empty.
    pub fn new(schema: String) -> (r: Self)
        ensures
            r@ == (ContextView {
                default_schema: if schema@.len() > 0 {
                    schema@
                } else {
                    DEFAULT_SCHEMA@
                },
                quoter: dialect_quoter(),
            }),
    {
        let mut s = Context {
            default_schema: String::from_str(DEFAULT_SCHEMA),
            quoter: Quoter::new(34, 34, QuotePolicy::QuotePolicyAlways),
        };
        if !schema.as_str().is_empty() {
            s.default_schema = schema;
        }
        s
    }

    /// The quoter of the dialect.
    pub fn quoter(&self) -> (r: Quoter)
        ensures
            r@ == self@.quoter,
    {
        self.quoter.clone()
    }

    /// The identifier `str` with its words quoted.
    pub fn quote(&self, str: &String) -> (r: String)
        ensures
            r@ == quoted(self@.quoter, str@),
    {
        self.quoter.quote(str)
    }

    /// The default namespace.
    pub fn get_default_schema(&self) -> (r: String)
        ensures
            r@ == self@.default_schema,
    {
        self.default_schema.clone()
    }

    /// `name` with the default namespace in front, unless the name
    /// holds a period already.
    pub fn table_name_with_schema(&self, name: &String) -> (r: String)
        ensures
            r@ == with_default_schema(self@, name@),
    {
        if !self.default_schema.as_str().is_empty() && !contains_char(name.as_str(), '.') {
            let mut out = self.default_schema.clone();
            out.append(".");
            out.append(name.as_str());
            return out;
        }
        name.clone()
    }

    /// Whether two names denote the same table.
    pub fn is_table_name_equal(&self, table1: &String, table2: &String) -> (r: bool)
        ensures
            r == same_table_name(self@, table1@, table2@),
    {
        let a = self.table_name_with_schema(table1);
        let b = self.table_name_with_schema(table2);
        eq_ignoring_case(a.as_str(), b.as_str())
    }

    fn quoted_table(&self, table_name: &String) -> (r: String)
        ensures
            r@ == table_ref(self@, table_name@),
    {
        let full = self.table_name_with_schema(table_name);
        self.quote(&full)
    }

    /// The definition of a column. `inline_pk` says whether a column of
    /// the primary key says so itself; `auto_incr_str` is the keyword
    /// that the dialect writes for an autoincrement column, if it has
    /// one; `fn_sql_type` writes the type of the column.
    pub fn sql_column<F: Fn(&Column) -> String>(
        &self,
        col: &Column,
        inline_pk: bool,
        auto_incr_str: Option<&str>,
        fn_sql_type: F,
    ) -> (r: String)
        requires
            call_requires(fn_sql_type, (col,)),
        ensures
            exists|t: String| #[trigger]
                call_ensures(fn_sql_type, (col,), t) && r@ == column_definition_of(
                    self@,
                    col@,
                    t@,
                    inline_pk,
                    match auto_incr_str {
                        Some(word) => Some(word@),
                        None => None,
                    },
                ),
    {
        let mut sql = String::new();
        self.quoter.quote_to(&mut sql, &col.get_column_name());
        sql.append(" ");
        let sql_type = fn_sql_type(col);
        sql.append(sql_type.as_str());
        sql.append(" ");
        if inline_pk && col.pk {
            sql.append("PRIMARY KEY ");
        }
        if col.autoincr {
            if let Some(incr) = auto_incr_str {
                sql.append(incr);
                sql.append(" ");
            }
        }
        if let Some(def) = &col.default {
            sql.append("DEFAULT ");
            sql.append(def.as_str());
            sql.append(" ");
        }
        if col.nullable {
            sql.append("NULL ");
        } else {
            sql.append("NOT NULL ");
        }
        proof {
            let keyword: Option<Seq<char>> = match auto_incr_str {
                Some(word) => Some(word@),
                None => None,
            };
            assert(sql@ =~= column_definition_of(self@, col@, sql_type@, inline_pk, keyword));
        }
        sql
    }

    /// The statement that adds `column` to the table `table_name`;
    /// `fn_sql_type` writes the type of the column.
    pub fn sql_add_column<F: Fn(&Column) -> String>(
        &self,
        table_name: &String,
        column: &Column,
        auto_incr_str: Option<&str>,
        fn_sql_type: F,
    ) -> (r: String)
        requires
            call_requires(fn_sql_type, (column,)),
        ensures
            exists|t: String| #[trigger]
                call_ensures(fn_sql_type, (column,), t) && r@ == add_column_statement_of(
                    self@,
                    table_name@,
                    column@,
                    t@,
                    match auto_incr_str {
                        Some(word) => Some(word@),
                        None => None,
                    },
                ),
    {
        let col_def = self.sql_column(column, false, auto_incr_str, fn_sql_type);
        let mut sql = String::from_str("ALTER TABLE ");
        sql.append(self.quoted_table(table_name).as_str());
        sql.append(" ADD COLUMN ");
        sql.append(col_def.as_str());
        sql
    }

    /// The statement that drops the column `column_name` of the table
    /// `table_name`, if the column is there.
    pub fn sql_drop_column(&self, table_name: &String, column_name: &String) -> (r: String)
        ensures
            r@ == drop_column_statement(self@, table_name@, column_name@),
    {
        let mut sql = String::from_str("ALTER TABLE ");
        sql.append(self.quoted_table(table_name).as_str());
        sql.append(" DROP COLUMN IF EXISTS ");
        sql.append(self.quote(column_name).as_str());
        sql
    }

    fn alter_head(&self, table: &String, column: &String) -> (r: String)
        ensures
            r@ == "ALTER TABLE "@ + table@ + " ALTER COLUMN "@ + column@,
    {
        let mut sql = String::from_str("ALTER TABLE ");
        sql.append(table.as_str());
        sql.append(" ALTER COLUMN ");
        sql.append(column.as_str());
        sql
    }

    /// The statements that turn the live column `old` into the declared
    /// column `new`: at most one for the type, one for the default
    /// unless `ignore_default` is set, and one for the nullability.
    /// `fn_sql_type` writes the type of a column. `MissingLength` where
    /// a character type is to get another length and the new column
    /// gives it none.
    pub fn sql_alter_column<F: Fn(&Column) -> String>(
        &self,
        table_name: &String,
        old: &Column,
        new: &Column,
        fn_sql_type: F,
        ignore_default: bool,
    ) -> (r: Result<Vec<String>, SchemaError>)
        requires
            call_requires(fn_sql_type, (old,)),
            call_requires(fn_sql_type, (new,)),
        ensures
            exists|a: String, b: String| #[trigger]
                call_ensures(fn_sql_type, (old,), a) && #[trigger] call_ensures(
                    fn_sql_type,
                    (new,),
                    b,
                ) && statements_view(r) == altered_of(
                    self@,
                    table_name@,
                    old@,
                    new@,
                    a@,
                    b@,
                    ignore_default,
                ),
    {
        let table = self.quoted_table(table_name);
        let column = old.get_column_name();
        let mut sqls: Vec<String> = Vec::new();
        let old_type = fn_sql_type(old);
        let new_type = fn_sql_type(new);
        if !same_text(old_type.as_str(), new_type.as_str()) {
            if lacks_character_length(old, new) {
                let r = Err(SchemaError::MissingLength { column, table });
                assert(statements_view(r) == altered_of(
                    self@,
                    table_name@,
                    old@,
                    new@,
                    old_type@,
                    new_type@,
                    ignore_default,
                ));
                return r;
            }
            let mut sql = self.alter_head(&table, &column);
            sql.append(" TYPE ");
            sql.append(new_type.as_str());
            push_statement(&mut sqls, sql);
        }
        assert(views(sqls@) =~= type_statements_of(
            self@,
            table_name@,
            old@,
            old_type@,
            new_type@,
        ));
        if !ignore_default {
            if !same_opt_text(&old.default, &new.default) {
                let mut sql = self.alter_head(&table, &column);
                match &new.default {
                    Some(def) => {
                        sql.append(" SET DEFAULT ");
                        sql.append(def.as_str());
                    },
                    None => {
                        sql.append(" DROP DEFAULT");
                    },
                }
                push_statement(&mut sqls, sql);
            }
        }
        assert(views(sqls@) =~= type_statements_of(self@, table_name@, old@, old_type@, new_type@)
            + default_statements(self@, table_name@, old@, new@, ignore_default));
        if old.nullable != new.nullable {
            let mut sql = self.alter_head(&table, &column);
            if new.nullable {
                sql.append(" DROP NOT NULL");
            } else {
                sql.append(" SET NOT NULL");
            }
            push_statement(&mut sqls, sql);
        }
        assert(views(sqls@) =~= alter_statements_of(
            self@,
            table_name@,
            old@,
            new@,
            old_type@,
            new_type@,
            ignore_default,
        ));
        Ok(sqls)
    }

    /// The statement that drops the table `table_name`, if it is there.
    pub fn sql_drop_table(&self, table_name: &String) -> (r: String)
        ensures
            r@ == drop_table_statement(self@, table_name@),
    {
        let mut sql = String::from_str("DROP TABLE IF EXISTS ");
        sql.append(self.quoted_table(table_name).as_str());
        sql
    }

    /// The statement that creates `index` on the table `table_name`;
    /// none for an index without columns.
    pub fn sql_create_index(&self, table_name: &String, index: &Index) -> (r: Option<String>)
        ensures
            match r {
                Some(sql) => index@.columns.len() > 0 && sql@ == create_index_statement(
                    self@,
                    table_name@,
                    index@,
                ),
                None => index@.columns.len() == 0,
            },
    {
        if index.columns.len() == 0 {
            return None;
        }
        let mut sql = String::from_str("CREATE");
        if index.unique {
            sql.append(" UNIQUE");
        }
        sql.append(" INDEX ");
        sql.append(self.quote(&index.name).as_str());
        sql.append(" ON ");
        sql.append(self.quoted_table(table_name).as_str());
        sql.append(" (");
        sql.append(join_strings(&index.columns, ",").as_str());
        sql.append(")");
        assert(sql@ =~= create_index_statement(self@, table_name@, index@));
        Some(sql)
    }

    /// The statement that drops the index `index_name_with_schema`, if
    /// it is there.
    pub fn sql_drop_index(&self, index_name_with_schema: &String) -> (r: String)
        ensures
            r@ == drop_index_statement(self@, index_name_with_schema@),
    {
        let mut sql = String::from_str("DROP INDEX IF EXISTS ");
        sql.append(self.quoted_table(index_name_with_schema).as_str());
        sql
    }
}

/// The type that decides what is written for a column.
fn effective(col: &Column) -> (r: SqlType)
    ensures
        r@ == effective_type(col@),
{
    match &col.col_type {
        Some(custom) => SqlType::parse(custom),
        None => col.typ.clone(),
    }
}

/// Whether the new column keeps a character type and gives it no length.
fn lacks_character_length(old: &Column, new: &Column) -> (r: bool)
    ensures
        r == (is_character_type(effective_type(new@)) && effective_type(new@).name
            == effective_type(old@).name && !has_length(effective_type(new@))),
{
    let before = effective(old);
    let after = effective(new);
    let family = canonical(&after.name);
    (same_text(family.as_str(), sql_types::CHAR) || same_text(family.as_str(), sql_types::VARCHAR))
        && same_text(after.name.as_str(), before.name.as_str()) && after.len.is_none()
        && after.fixed_len.is_none()
}

} // verus!
