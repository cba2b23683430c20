//! Reconciliation: the statements that bring the live schema to the
//! declared one.
//!
//! The caller reads the live tables, hands them over together with the
//! declared ones, and executes the statements of the plan in order. A
//! pass that finds something wrong with a declaration plans no
//! statement at all: its plan is the error alone.

use vstd::prelude::*;
use vstd::string::*;
use crate::column::{
    column_name, columns_view, same_column_name, Column, ColumnView,
};
use crate::context::{
    add_column_statement, alter_statements, create_index_statement, drop_column_statement,
    drop_index_statement, drop_table_statement, lacks_length, push_statement, same_table_name,
    table_ref, with_default_schema, Context, ContextView, dialect_quoter, DEFAULT_SCHEMA,
};
use crate::error::{SchemaError, SchemaErrorView};
use crate::index::{indexes_view, Index, IndexView};
use crate::pg_schema::{create_table_statement, table_index_statements, PgSchema};
use crate::schema::Schema;
use crate::table::{in_namespace, qualified_name, tables_view, TableSchema, TableView};
use crate::text::{eq_ignoring_case, has_string, same_ignoring_case, views};
use crate::validate::{check_tables, declaration_fault};

verus! {

/// The kind of ledger entry that records a rebuilt table.
pub const RECREATE_TAG: &'static str = "recreate";

/// What a pass of reconciliation does: the statements to execute, in
/// order, or the error that keeps the pass from doing anything.
#[derive(Debug)]
pub struct SyncPlan {
    pub statements: Vec<String>,
    pub error: Option<SchemaError>,
}

/// A plan as plain values.
pub struct PlanView {
    pub statements: Seq<Seq<char>>,
    pub error: Option<SchemaErrorView>,
}

impl View for SyncPlan {
    type V = PlanView;

    open spec fn view(&self) -> PlanView {
        PlanView {
            statements: views(self.statements@),
            error: match self.error {
                Some(e) => Some(e@),
                None => None,
            },
        }
    }
}

/// What the caller does next while it carries out a plan.
#[derive(Debug)]
pub enum SyncStep {
    /// Execute this statement.
    Execute(String),
    /// Stop and report this error.
    Fail(SchemaError),
    /// Nothing is left to do.
    Done,
}

/// A step as plain values.
pub enum SyncStepView {
    Execute(Seq<char>),
    Fail(SchemaErrorView),
    Done,
}

impl View for SyncStep {
    type V = SyncStepView;

    open spec fn view(&self) -> SyncStepView {
        match self {
            SyncStep::Execute(sql) => SyncStepView::Execute(sql@),
            SyncStep::Fail(e) => SyncStepView::Fail(e@),
            SyncStep::Done => SyncStepView::Done,
        }
    }
}

/// The step that follows once `done` statements of a plan were
/// executed: the next statement while there is one, then the error of
/// the plan, if it has one.
pub open spec fn step_after(plan: PlanView, done: int) -> SyncStepView {
    if 0 <= done < plan.statements.len() {
        SyncStepView::Execute(plan.statements[done])
    } else {
        match plan.error {
            Some(e) => SyncStepView::Fail(e),
            None => SyncStepView::Done,
        }
    }
}

impl SyncPlan {
    /// What to do once `done` statements were executed.
    pub fn step(&self, done: usize) -> (r: SyncStep)
        ensures
            r@ == step_after(self@, done as int),
    {
        if done < self.statements.len() {
            SyncStep::Execute(self.statements[done].clone())
        } else {
            match &self.error {
                Some(e) => SyncStep::Fail(e.clone()),
                None => SyncStep::Done,
            }
        }
    }

    /// The error to report where the database refused the statement
    /// that follows the first `done` ones: it carries the statement
    /// and the cause. Nothing after it is executed.
    pub fn refused(&self, done: usize, cause: String) -> (r: SchemaError)
        requires
            done < self@.statements.len(),
        ensures
            r@ == (SchemaErrorView::StatementExecutionFailed {
                sql: self@.statements[done as int],
                cause: cause@,
            }),
    {
        SchemaError::StatementExecutionFailed { sql: self.statements[done].clone(), cause }
    }
}

/// The plan that does nothing.
pub open spec fn no_plan() -> PlanView {
    PlanView { statements: Seq::empty(), error: None }
}

/// The plan of some statements.
pub open spec fn plan_of(statements: Seq<Seq<char>>) -> PlanView {
    PlanView { statements, error: None }
}

/// One plan after another: where the first ends in an error, the second
/// is left out.
pub open spec fn plan_then(first: PlanView, second: PlanView) -> PlanView {
    if first.error is Some {
        first
    } else {
        PlanView { statements: first.statements + second.statements, error: second.error }
    }
}

/// The context of the dialect for a default namespace.
pub open spec fn context_for(default_schema: Seq<char>) -> ContextView {
    ContextView {
        default_schema: if default_schema.len() > 0 {
            default_schema
        } else {
            DEFAULT_SCHEMA@
        },
        quoter: dialect_quoter(),
    }
}

/// The first live table with the name of the declared table `t`.
pub open spec fn live_table(ctx: ContextView, t: TableView, live: Seq<TableView>) -> Option<
    TableView,
>
    decreases live.len(),
{
    if live.len() == 0 {
        None
    } else if same_table_name(ctx, qualified_name(t), qualified_name(live[0])) {
        Some(live[0])
    } else {
        live_table(ctx, t, live.drop_first())
    }
}

/// The first of `live` with the name of the column `col`.
pub open spec fn first_same_name(live: Seq<ColumnView>, col: ColumnView) -> Option<ColumnView>
    decreases live.len(),
{
    if live.len() == 0 {
        None
    } else if same_column_name(col, live[0]) {
        Some(live[0])
    } else {
        first_same_name(live.drop_first(), col)
    }
}

/// Whether the live column `live` has the earlier name of `col`.
pub open spec fn renamed_from(col: ColumnView, live: ColumnView) -> bool {
    match col.from {
        Some(earlier) => same_ignoring_case(earlier, column_name(live)),
        None => false,
    }
}

/// The first of `live` with the earlier name of the column `col`.
pub open spec fn first_renamed(live: Seq<ColumnView>, col: ColumnView) -> Option<ColumnView>
    decreases live.len(),
{
    if live.len() == 0 {
        None
    } else if renamed_from(col, live[0]) {
        Some(live[0])
    } else {
        first_renamed(live.drop_first(), col)
    }
}

/// The live column that a declared column stands for: the first with
/// its name, or, where there is none, the first with its earlier name.
pub open spec fn live_column(live: Seq<ColumnView>, col: ColumnView) -> Option<ColumnView> {
    match first_same_name(live, col) {
        Some(found) => Some(found),
        None => first_renamed(live, col),
    }
}

/// Whether a live column is declared: some declared column has its
/// name, or had it earlier.
pub open spec fn is_declared(declared: Seq<ColumnView>, live: ColumnView) -> bool {
    exists|k: int|
        0 <= k < declared.len() && (same_column_name(#[trigger] declared[k], live) || renamed_from(
            declared[k],
            live,
        ))
}

/// What is planned for one declared column: the column is altered
/// where it is live, and added where it is not.
pub open spec fn column_plan(ctx: ContextView, t: TableView, db: TableView, col: ColumnView) -> PlanView {
    match live_column(db.columns, col) {
        Some(old) => if lacks_length(old, col) {
            PlanView {
                statements: Seq::empty(),
                error: Some(
                    SchemaErrorView::MissingLength {
                        column: column_name(old),
                        table: table_ref(ctx, qualified_name(t)),
                    },
                ),
            }
        } else {
            plan_of(alter_statements(ctx, qualified_name(t), old, col, col.autoincr))
        },
        None => plan_of(seq![add_column_statement(ctx, qualified_name(db), col, None)]),
    }
}

/// What is planned for the first `n` declared columns.
pub open spec fn columns_plan(ctx: ContextView, t: TableView, db: TableView, n: int) -> PlanView
    decreases n,
{
    if n <= 0 || n > t.columns.len() {
        no_plan()
    } else {
        plan_then(columns_plan(ctx, t, db, n - 1), column_plan(ctx, t, db, t.columns[n - 1]))
    }
}

/// The statements that drop those of the first `n` live columns that
/// are not declared.
pub open spec fn dropped_columns(ctx: ContextView, t: TableView, db: TableView, n: int) -> Seq<
    Seq<char>,
>
    decreases n,
{
    if n <= 0 || n > db.columns.len() {
        Seq::empty()
    } else if is_declared(t.columns, db.columns[n - 1]) {
        dropped_columns(ctx, t, db, n - 1)
    } else {
        dropped_columns(ctx, t, db, n - 1).push(
            drop_column_statement(ctx, qualified_name(t), column_name(db.columns[n - 1])),
        )
    }
}

/// The statements that trim the columns, where the table asks for it.
pub open spec fn trim_columns_statements(ctx: ContextView, t: TableView, db: TableView) -> Seq<
    Seq<char>,
> {
    if t.trim_columns {
        dropped_columns(ctx, t, db, db.columns.len() as int)
    } else {
        Seq::empty()
    }
}

/// The first of `list` with the name of the index `idx`, whatever the
/// case of the letters.
pub open spec fn first_same_index(list: Seq<IndexView>, idx: IndexView) -> Option<IndexView>
    decreases list.len(),
{
    if list.len() == 0 {
        None
    } else if same_ignoring_case(list[0].name, idx.name) {
        Some(list[0])
    } else {
        first_same_index(list.drop_first(), idx)
    }
}

/// The live index with the name of `idx`, if there is one.
pub open spec fn live_index(db: TableView, idx: IndexView) -> Option<IndexView> {
    match db.indexes {
        Some(list) => first_same_index(list, idx),
        None => None,
    }
}

/// The statement that creates an index, if it has columns.
pub open spec fn created_index(ctx: ContextView, t: TableView, idx: IndexView) -> Seq<Seq<char>> {
    if idx.columns.len() > 0 {
        seq![create_index_statement(ctx, qualified_name(t), idx)]
    } else {
        Seq::empty()
    }
}

/// The statement that drops a live index, if it has columns.
pub open spec fn dropped_index(ctx: ContextView, db: TableView, old: IndexView) -> Seq<Seq<char>> {
    if old.columns.len() > 0 {
        seq![drop_index_statement(ctx, in_namespace(db.schema, old.name))]
    } else {
        Seq::empty()
    }
}

/// The statements for one declared index: nothing where a live index
/// of its name has its columns; where one has other columns, it is
/// dropped and the declared one created; else the declared one is created.
pub open spec fn index_statements(ctx: ContextView, t: TableView, db: TableView, idx: IndexView) -> Seq<
    Seq<char>,
> {
    match live_index(db, idx) {
        Some(old) => if old.columns == idx.columns {
            Seq::empty()
        } else {
            dropped_index(ctx, db, old) + created_index(ctx, t, idx)
        },
        None => created_index(ctx, t, idx),
    }
}

/// The statements for the first `n` of the declared indexes `list`.
pub open spec fn indexes_statements(
    ctx: ContextView,
    t: TableView,
    db: TableView,
    list: Seq<IndexView>,
    n: int,
) -> Seq<Seq<char>>
    decreases n,
{
    if n <= 0 || n > list.len() {
        Seq::empty()
    } else {
        indexes_statements(ctx, t, db, list, n - 1) + index_statements(ctx, t, db, list[n - 1])
    }
}

/// The statements for the declared indexes.
pub open spec fn declared_indexes_statements(ctx: ContextView, t: TableView, db: TableView) -> Seq<
    Seq<char>,
> {
    match t.indexes {
        Some(list) => indexes_statements(ctx, t, db, list, list.len() as int),
        None => Seq::empty(),
    }
}

/// Whether a live index is declared: some declared index has its name.
pub open spec fn is_declared_index(t: TableView, live: IndexView) -> bool {
    match t.indexes {
        Some(list) => exists|k: int|
            0 <= k < list.len() && same_ignoring_case((#[trigger] list[k]).name, live.name),
        None => false,
    }
}

/// The statements that drop those of the first `n` of the live indexes
/// `list` that are not declared.
pub open spec fn dropped_indexes(
    ctx: ContextView,
    t: TableView,
    db: TableView,
    list: Seq<IndexView>,
    n: int,
) -> Seq<Seq<char>>
    decreases n,
{
    if n <= 0 || n > list.len() {
        Seq::empty()
    } else if is_declared_index(t, list[n - 1]) {
        dropped_indexes(ctx, t, db, list, n - 1)
    } else {
        dropped_indexes(ctx, t, db, list, n - 1) + dropped_index(ctx, db, list[n - 1])
    }
}

/// The statements that trim the indexes, where the table asks for it.
pub open spec fn trim_indexes_statements(ctx: ContextView, t: TableView, db: TableView) -> Seq<
    Seq<char>,
> {
    if t.trim_indexes {
        match db.indexes {
            Some(list) => dropped_indexes(ctx, t, db, list, list.len() as int),
            None => Seq::empty(),
        }
    } else {
        Seq::empty()
    }
}

/// The plan that creates a table which is not live.
pub open spec fn create_plan(ctx: ContextView, t: TableView) -> PlanView {
    if t.columns.len() == 0 {
        PlanView {
            statements: Seq::empty(),
            error: Some(SchemaErrorView::EmptyTableDefinition(t.name)),
        }
    } else {
        plan_of(seq![create_table_statement(ctx, t)] + table_index_statements(ctx, t))
    }
}

/// The plan that brings a live table to the declared one: the columns
/// first, then the columns to trim, the indexes, and the indexes to trim.
pub open spec fn alter_plan(ctx: ContextView, t: TableView, db: TableView) -> PlanView {
    plan_then(
        columns_plan(ctx, t, db, t.columns.len() as int),
        plan_of(
            trim_columns_statements(ctx, t, db) + declared_indexes_statements(ctx, t, db)
                + trim_indexes_statements(ctx, t, db),
        ),
    )
}

/// The plan for one declared table, given the live table of its name.
pub open spec fn table_plan(ctx: ContextView, t: TableView, found: Option<TableView>) -> PlanView {
    match found {
        Some(db) => alter_plan(ctx, t, db),
        None => create_plan(ctx, t),
    }
}

/// The plan for the first `n` declared tables.
pub open spec fn tables_plan(ctx: ContextView, tables: Seq<TableView>, live: Seq<TableView>, n: int) -> PlanView
    decreases n,
{
    if n <= 0 || n > tables.len() {
        no_plan()
    } else {
        plan_then(
            tables_plan(ctx, tables, live, n - 1),
            table_plan(ctx, tables[n - 1], live_table(ctx, tables[n - 1], live)),
        )
    }
}

/// The plan that is an error alone.
pub open spec fn failed_plan(e: SchemaErrorView) -> PlanView {
    PlanView { statements: Seq::empty(), error: Some(e) }
}

/// A plan, without its statements where it ends in an error.
pub open spec fn all_or_nothing(p: PlanView) -> PlanView {
    match p.error {
        Some(e) => failed_plan(e),
        None => p,
    }
}

/// The plan of a pass over all declared tables. Where a declaration
/// has something wrong with it, the plan is that error and no
/// statement, whatever is live. Else it holds the statements for the
/// tables, in their order; where a column cannot be brought to its
/// declaration, it is that error and no statement.
pub open spec fn planned(ctx: ContextView, tables: Seq<TableView>, live: Seq<TableView>) -> PlanView {
    match declaration_fault(tables) {
        Some(e) => failed_plan(e),
        None => all_or_nothing(tables_plan(ctx, tables, live, tables.len() as int)),
    }
}

/// A plan that ends in an error holds no statement: nothing is handed
/// out for execution before an error is reported.
pub proof fn law_error_comes_before_any_statement(
    ctx: ContextView,
    tables: Seq<TableView>,
    live: Seq<TableView>,
)
    ensures
        planned(ctx, tables, live).error is Some ==> planned(ctx, tables, live).statements.len()
            == 0,
        declaration_fault(tables) is Some ==> planned(ctx, tables, live) == failed_plan(
            declaration_fault(tables)->0,
        ),
{
}

/// What is to be done before a table is rebuilt: the statement that
/// drops it, and the entry that the ledger gets for it.
#[derive(Debug)]
pub struct RecreateStep {
    pub drop_sql: String,
    pub table_name: String,
    pub tag: String,
    pub value: String,
}

/// A step as plain values.
pub struct RecreateStepView {
    pub drop_sql: Seq<char>,
    pub table_name: Seq<char>,
    pub tag: Seq<char>,
    pub value: Seq<char>,
}

impl View for RecreateStep {
    type V = RecreateStepView;

    open spec fn view(&self) -> RecreateStepView {
        RecreateStepView {
            drop_sql: self.drop_sql@,
            table_name: self.table_name@,
            tag: self.tag@,
            value: self.value@,
        }
    }
}

/// Whether a table is to be rebuilt: it carries a tag, and the ledger
/// has not recorded the value of the tag for it.
pub open spec fn needs_recreate(t: TableView, recorded: Seq<Seq<char>>) -> bool {
    match t.recreate {
        Some(value) => !recorded.contains(value),
        None => false,
    }
}

/// The step that rebuilds a table.
pub open spec fn recreate_step(ctx: ContextView, t: TableView) -> RecreateStepView {
    RecreateStepView {
        drop_sql: drop_table_statement(ctx, qualified_name(t)),
        table_name: with_default_schema(ctx, qualified_name(t)),
        tag: RECREATE_TAG@,
        value: match t.recreate {
            Some(value) => value,
            None => Seq::empty(),
        },
    }
}

/// A table whose tag is recorded is not rebuilt, and once the value of
/// a tag is added to the ledger the table is not rebuilt again.
pub proof fn law_recreate_happens_once(t: TableView, recorded: Seq<Seq<char>>)
    ensures
        t.recreate is Some && recorded.contains(t.recreate->0) ==> !needs_recreate(t, recorded),
        t.recreate is Some ==> !needs_recreate(t, recorded.push(t.recreate->0)),
{
    if t.recreate is Some {
        let after = recorded.push(t.recreate->0);
        assert(after[after.len() - 1] == t.recreate->0);
    }
}

/// Decides whether `table` is rebuilt, given the values that the
/// ledger has recorded for it under the tag `recreate`.
pub fn check_recreate<S: Schema>(s: &S, table: &TableSchema, recorded: &Vec<String>) -> (r: Option<
    RecreateStep,
>)
    ensures
        match r {
            Some(step) => needs_recreate(table@, views(recorded@)) && step@ == recreate_step(
                s.context(),
                table@,
            ),
            None => !needs_recreate(table@, views(recorded@)),
        },
{
    match &table.recreate {
        Some(value) => {
            if has_string(recorded, value.as_str()) {
                None
            } else {
                Some(
                    RecreateStep {
                        drop_sql: s.sql_drop_table(table),
                        table_name: s.table_name_with_schema(table),
                        tag: String::from_str(RECREATE_TAG),
                        value: value.clone(),
                    },
                )
            }
        },
        None => None,
    }
}

fn find_live_table<'a, S: Schema>(s: &S, table: &TableSchema, live: &'a Vec<TableSchema>) -> (r: Option<
    &'a TableSchema,
>)
    ensures
        match r {
            Some(db) => live_table(s.context(), table@, tables_view(live@)) == Some(db@),
            None => live_table(s.context(), table@, tables_view(live@)) is None,
        },
{
    let ghost all = tables_view(live@);
    let mut i: usize = 0;
    proof {
        assert(all.subrange(0, all.len() as int) =~= all);
    }
    while i < live.len()
        invariant
            i <= live.len(),
            all == tables_view(live@),
            live_table(s.context(), table@, all) == live_table(
                s.context(),
                table@,
                all.subrange(i as int, all.len() as int),
            ),
        decreases live.len() - i,
    {
        proof {
            let rest = all.subrange(i as int, all.len() as int);
            assert(rest[0] == live@[i as int]@);
            assert(rest.drop_first() =~= all.subrange(i + 1, all.len() as int));
        }
        if s.is_table_name_equal(table, &live[i]) {
            return Some(&live[i]);
        }
        i += 1;
    }
    None
}

fn is_renamed_from(col: &Column, live: &Column) -> (r: bool)
    ensures
        r == renamed_from(col@, live@),
{
    match &col.from {
        Some(earlier) => {
            let name = live.get_column_name();
            eq_ignoring_case(earlier.as_str(), name.as_str())
        },
        None => false,
    }
}

fn find_same_name<'a>(live: &'a Vec<Column>, col: &Column) -> (r: Option<&'a Column>)
    ensures
        match r {
            Some(found) => first_same_name(columns_view(live@), col@) == Some(found@),
            None => first_same_name(columns_view(live@), col@) is None,
        },
{
    let ghost all = columns_view(live@);
    let mut i: usize = 0;
    proof {
        assert(all.subrange(0, all.len() as int) =~= all);
    }
    while i < live.len()
        invariant
            i <= live.len(),
            all == columns_view(live@),
            first_same_name(all, col@) == first_same_name(
                all.subrange(i as int, all.len() as int),
                col@,
            ),
        decreases live.len() - i,
    {
        proof {
            let rest = all.subrange(i as int, all.len() as int);
            assert(rest[0] == live@[i as int]@);
            assert(rest.drop_first() =~= all.subrange(i + 1, all.len() as int));
        }
        if col.is_name_equal(&live[i]) {
            return Some(&live[i]);
        }
        i += 1;
    }
    None
}

fn find_renamed<'a>(live: &'a Vec<Column>, col: &Column) -> (r: Option<&'a Column>)
    ensures
        match r {
            Some(found) => first_renamed(columns_view(live@), col@) == Some(found@),
            None => first_renamed(columns_view(live@), col@) is None,
        },
{
    let ghost all = columns_view(live@);
    let mut i: usize = 0;
    proof {
        assert(all.subrange(0, all.len() as int) =~= all);
    }
    while i < live.len()
        invariant
            i <= live.len(),
            all == columns_view(live@),
            first_renamed(all, col@) == first_renamed(
                all.subrange(i as int, all.len() as int),
                col@,
            ),
        decreases live.len() - i,
    {
        proof {
            let rest = all.subrange(i as int, all.len() as int);
            assert(rest[0] == live@[i as int]@);
            assert(rest.drop_first() =~= all.subrange(i + 1, all.len() as int));
        }
        if is_renamed_from(col, &live[i]) {
            return Some(&live[i]);
        }
        i += 1;
    }
    None
}

/// The live column that the declared column `col` stands for.
pub fn find_live_column<'a>(live: &'a Vec<Column>, col: &Column) -> (r: Option<&'a Column>)
    ensures
        match r {
            Some(found) => live_column(columns_view(live@), col@) == Some(found@),
            None => live_column(columns_view(live@), col@) is None,
        },
{
    match find_same_name(live, col) {
        Some(found) => Some(found),
        None => find_renamed(live, col),
    }
}

fn has_declared_column(declared: &Vec<Column>, live: &Column) -> (r: bool)
    ensures
        r == is_declared(columns_view(declared@), live@),
{
    let ghost all = columns_view(declared@);
    let mut k: usize = 0;
    while k < declared.len()
        invariant
            k <= declared.len(),
            all == columns_view(declared@),
            forall|j: int|
                0 <= j < k ==> !(same_column_name(#[trigger] all[j], live@) || renamed_from(
                    all[j],
                    live@,
                )),
        decreases declared.len() - k,
    {
        if declared[k].is_name_equal(live) || is_renamed_from(&declared[k], live) {
            assert(same_column_name(all[k as int], live@) || renamed_from(all[k as int], live@));
            return true;
        }
        k += 1;
    }
    false
}

fn find_same_index<'a>(list: &'a Vec<Index>, idx: &Index) -> (r: Option<&'a Index>)
    ensures
        match r {
            Some(found) => first_same_index(indexes_view(list@), idx@) == Some(found@),
            None => first_same_index(indexes_view(list@), idx@) is None,
        },
{
    let ghost all = indexes_view(list@);
    let mut i: usize = 0;
    proof {
        assert(all.subrange(0, all.len() as int) =~= all);
    }
    while i < list.len()
        invariant
            i <= list.len(),
            all == indexes_view(list@),
            first_same_index(all, idx@) == first_same_index(
                all.subrange(i as int, all.len() as int),
                idx@,
            ),
        decreases list.len() - i,
    {
        proof {
            let rest = all.subrange(i as int, all.len() as int);
            assert(rest[0] == list@[i as int]@);
            assert(rest.drop_first() =~= all.subrange(i + 1, all.len() as int));
        }
        if list[i].is_name_equal(idx) {
            return Some(&list[i]);
        }
        i += 1;
    }
    None
}

fn has_declared_index(table: &TableSchema, live: &Index) -> (r: bool)
    ensures
        r == is_declared_index(table@, live@),
{
    match &table.indexes {
        Some(list) => {
            let ghost all = indexes_view(list@);
            let mut k: usize = 0;
            while k < list.len()
                invariant
                    k <= list.len(),
                    all == indexes_view(list@),
                    table@.indexes == Some(all),
                    forall|j: int|
                        0 <= j < k ==> !same_ignoring_case((#[trigger] all[j]).name, live@.name),
                decreases list.len() - k,
            {
                if list[k].is_name_equal(live) {
                    assert(all.len() == list.len());
                    assert(all[k as int] == list@[k as int]@);
                    assert(same_ignoring_case(all[k as int].name, live@.name));
                    assert(table@.indexes->0 == all);
                    assert(is_declared_index(table@, live@));
                    return true;
                }
                k += 1;
            }
            false
        },
        None => false,
    }
}

fn append_statements(out: &mut Vec<String>, more: Vec<String>)
    ensures
        views(final(out)@) == views(old(out)@) + views(more@),
{
    let mut more = more;
    let ghost added = views(more@);
    out.append(&mut more);
    assert(views(out@) =~= views(old(out)@) + added);
}

/// Plans the columns of a live table: each declared column is altered
/// or added. Stops at the first column that cannot be altered.
fn plan_columns<S: Schema>(s: &S, table: &TableSchema, db: &TableSchema, out: &mut Vec<String>) -> (r:
    Result<(), SchemaError>)
    ensures
        ({
            let p = columns_plan(s.context(), table@, db@, table@.columns.len() as int);
            &&& views(final(out)@) == views(old(out)@) + p.statements
            &&& match r {
                Ok(_) => p.error is None,
                Err(e) => p.error == Some(e@),
            }
        }),
{
    let mut i: usize = 0;
    proof {
        assert(views(out@) =~= views(old(out)@) + columns_plan(s.context(), table@, db@, 0).statements);
    }
    while i < table.columns.len()
        invariant
            i <= table.columns.len(),
            columns_plan(s.context(), table@, db@, i as int).error is None,
            views(out@) == views(old(out)@) + columns_plan(s.context(), table@, db@, i as int).statements,
        decreases table.columns.len() - i,
    {
        let col = &table.columns[i];
        let ghost before = views(out@);
        assert(table@.columns[i as int] == col@);
        match find_live_column(&db.columns, col) {
            Some(db_col) => {
                match s.sql_alter_column(table, db_col, col) {
                    Ok(sqls) => {
                        append_statements(out, sqls);
                    },
                    Err(e) => {
                        proof {
                            let step = column_plan(s.context(), table@, db@, col@);
                            assert(step.error == Some(e@));
                            assert(views(out@) =~= views(old(out)@) + columns_plan(
                                s.context(),
                                table@,
                                db@,
                                i + 1,
                            ).statements);
                            lemma_columns_plan_ends_at_error(
                                s.context(),
                                table@,
                                db@,
                                i + 1,
                                table@.columns.len() as int,
                            );
                        }
                        return Err(e);
                    },
                }
            },
            None => {
                let sql = s.sql_add_column(db, col);
                push_statement(out, sql);
            },
        }
        proof {
            let step = column_plan(s.context(), table@, db@, col@);
            assert(views(out@) =~= before + step.statements);
            assert(views(out@) =~= views(old(out)@) + columns_plan(
                s.context(),
                table@,
                db@,
                i + 1,
            ).statements);
        }
        i += 1;
    }
    Ok(())
}

fn plan_trims<S: Schema>(s: &S, table: &TableSchema, db: &TableSchema, out: &mut Vec<String>)
    ensures
        views(final(out)@) == views(old(out)@) + trim_columns_statements(s.context(), table@, db@),
{
    if table.trim_columns {
        let mut i: usize = 0;
        proof {
            assert(views(out@) =~= views(old(out)@) + dropped_columns(s.context(), table@, db@, 0));
        }
        while i < db.columns.len()
            invariant
                i <= db.columns.len(),
                views(out@) == views(old(out)@) + dropped_columns(s.context(), table@, db@, i as int),
            decreases db.columns.len() - i,
        {
            let db_col = &db.columns[i];
            assert(db@.columns[i as int] == db_col@);
            if !has_declared_column(&table.columns, db_col) {
                let sql = s.sql_drop_column(table, db_col);
                push_statement(out, sql);
            }
            proof {
                assert(views(out@) =~= views(old(out)@) + dropped_columns(
                    s.context(),
                    table@,
                    db@,
                    i + 1,
                ));
            }
            i += 1;
        }
    } else {
        assert(views(out@) =~= views(old(out)@) + trim_columns_statements(s.context(), table@, db@));
    }
}

fn plan_index<S: Schema>(s: &S, table: &TableSchema, db: &TableSchema, index: &Index, out: &mut Vec<
    String,
>)
    ensures
        views(final(out)@) == views(old(out)@) + index_statements(s.context(), table@, db@, index@),
{
    let ghost start = views(out@);
    if let Some(olds) = &db.indexes {
        if let Some(old) = find_same_index(olds, index) {
            if old.is_columns_equal(index) {
                assert(views(out@) =~= start + index_statements(s.context(), table@, db@, index@));
                return ;
            }
            if let Some(sql) = s.sql_drop_index(db, old) {
                push_statement(out, sql);
            }
            assert(views(out@) =~= start + dropped_index(s.context(), db@, old@));
        }
    }
    let ghost middle = views(out@);
    if let Some(sql) = s.sql_create_index(table, index) {
        push_statement(out, sql);
    }
    proof {
        assert(views(out@) =~= middle + created_index(s.context(), table@, index@));
        assert(views(out@) =~= start + index_statements(s.context(), table@, db@, index@));
    }
}

fn plan_indexes<S: Schema>(s: &S, table: &TableSchema, db: &TableSchema, out: &mut Vec<String>)
    ensures
        views(final(out)@) == views(old(out)@) + declared_indexes_statements(s.context(), table@, db@),
{
    match &table.indexes {
        Some(list) => {
            let ghost all = indexes_view(list@);
            let mut i: usize = 0;
            proof {
                assert(views(out@) =~= views(old(out)@) + indexes_statements(
                    s.context(),
                    table@,
                    db@,
                    all,
                    0,
                ));
            }
            while i < list.len()
                invariant
                    i <= list.len(),
                    all == indexes_view(list@),
                    views(out@) == views(old(out)@) + indexes_statements(
                        s.context(),
                        table@,
                        db@,
                        all,
                        i as int,
                    ),
                decreases list.len() - i,
            {
                assert(all[i as int] == list@[i as int]@);
                plan_index(s, table, db, &list[i], out);
                proof {
                    assert(views(out@) =~= views(old(out)@) + indexes_statements(
                        s.context(),
                        table@,
                        db@,
                        all,
                        i + 1,
                    ));
                }
                i += 1;
            }
        },
        None => {
            assert(views(out@) =~= views(old(out)@) + declared_indexes_statements(
                s.context(),
                table@,
                db@,
            ));
        },
    }
}

fn plan_index_trims<S: Schema>(s: &S, table: &TableSchema, db: &TableSchema, out: &mut Vec<String>)
    ensures
        views(final(out)@) == views(old(out)@) + trim_indexes_statements(s.context(), table@, db@),
{
    if table.trim_indexes {
        if let Some(list) = &db.indexes {
            let ghost all = indexes_view(list@);
            let mut i: usize = 0;
            proof {
                assert(views(out@) =~= views(old(out)@) + dropped_indexes(
                    s.context(),
                    table@,
                    db@,
                    all,
                    0,
                ));
            }
            while i < list.len()
                invariant
                    i <= list.len(),
                    all == indexes_view(list@),
                    views(out@) == views(old(out)@) + dropped_indexes(
                        s.context(),
                        table@,
                        db@,
                        all,
                        i as int,
                    ),
                decreases list.len() - i,
            {
                let oidx = &list[i];
                assert(all[i as int] == oidx@);
                let ghost before = views(out@);
                if !has_declared_index(table, oidx) {
                    if let Some(sql) = s.sql_drop_index(db, oidx) {
                        push_statement(out, sql);
                    }
                    assert(views(out@) =~= before + dropped_index(s.context(), db@, oidx@));
                }
                proof {
                    assert(views(out@) =~= views(old(out)@) + dropped_indexes(
                        s.context(),
                        table@,
                        db@,
                        all,
                        i + 1,
                    ));
                }
                i += 1;
            }
            return ;
        }
    }
    assert(views(out@) =~= views(old(out)@) + trim_indexes_statements(s.context(), table@, db@));
}

/// Plans one declared table against the live table of its name, if
/// there is one, and adds the statements to `out`.
pub fn plan_table<S: Schema>(s: &S, table: &TableSchema, found: Option<&TableSchema>, out: &mut Vec<
    String,
>) -> (r: Result<(), SchemaError>)
    ensures
        ({
            let p = table_plan(
                s.context(),
                table@,
                match found {
                    Some(db) => Some(db@),
                    None => None,
                },
            );
            &&& views(final(out)@) == views(old(out)@) + p.statements
            &&& match r {
                Ok(_) => p.error is None,
                Err(e) => p.error == Some(e@),
            }
        }),
{
    let ghost start = views(out@);
    match found {
        Some(db) => {
            match plan_columns(s, table, db, out) {
                Ok(_) => {},
                Err(e) => {
                    return Err(e);
                },
            }
            let ghost after_columns = views(out@);
            plan_trims(s, table, db, out);
            plan_indexes(s, table, db, out);
            plan_index_trims(s, table, db, out);
            proof {
                assert(views(out@) =~= after_columns + (trim_columns_statements(s.context(), table@, db@)
                    + declared_indexes_statements(s.context(), table@, db@) + trim_indexes_statements(
                    s.context(),
                    table@,
                    db@,
                )));
                assert(views(out@) =~= start + alter_plan(s.context(), table@, db@).statements);
            }
            Ok(())
        },
        None => {
            match s.sql_create_table(table) {
                Ok(table_sqls) => {
                    append_statements(out, table_sqls);
                    let index_sqls = s.sql_create_indexes(table);
                    append_statements(out, index_sqls);
                    assert(views(out@) =~= start + create_plan(s.context(), table@).statements);
                    Ok(())
                },
                Err(e) => {
                    assert(views(out@) =~= start + create_plan(s.context(), table@).statements);
                    Err(e)
                },
            }
        },
    }
}

/// The plan that is the error `e` alone.
fn unplanned(e: SchemaError) -> (r: SyncPlan)
    ensures
        r@ == failed_plan(e@),
{
    let plan = SyncPlan { statements: Vec::new(), error: Some(e) };
    assert(plan@.statements =~= Seq::<Seq<char>>::empty());
    plan
}

/// Plans a pass of reconciliation in the dialect `s`. The declarations
/// are checked first, all of them; then come, for each declared table
/// in order, the statements that create it where it is not among the
/// live tables `db_tables`, and those that alter it where it is. Where
/// a declaration has something wrong with it, or a table cannot be
/// brought to its declaration, the plan is the error and no statement.
pub fn plan_tables<S: Schema>(s: &S, tables: &Vec<TableSchema>, db_tables: &Vec<TableSchema>) -> (r:
    SyncPlan)
    ensures
        r@ == planned(s.context(), tables_view(tables@), tables_view(db_tables@)),
{
    let ghost ctx = s.context();
    let ghost declared = tables_view(tables@);
    let ghost live = tables_view(db_tables@);
    match check_tables(tables) {
        Ok(_) => {},
        Err(e) => {
            return unplanned(e);
        },
    }
    let mut statements: Vec<String> = Vec::new();
    let mut i: usize = 0;
    proof {
        assert(views(statements@) =~= tables_plan(ctx, declared, live, 0).statements);
    }
    while i < tables.len()
        invariant
            i <= tables.len(),
            s.context() == ctx,
            declared == tables_view(tables@),
            live == tables_view(db_tables@),
            declaration_fault(declared) is None,
            tables_plan(ctx, declared, live, i as int).error is None,
            views(statements@) == tables_plan(ctx, declared, live, i as int).statements,
        decreases tables.len() - i,
    {
        let table = &tables[i];
        assert(declared[i as int] == table@);
        let found = find_live_table(s, table, db_tables);
        match plan_table(s, table, found, &mut statements) {
            Ok(_) => {},
            Err(e) => {
                proof {
                    let next = tables_plan(ctx, declared, live, i + 1);
                    assert(next.error == Some(e@));
                    lemma_plan_ends_at_error(ctx, declared, live, i + 1, tables.len() as int);
                }
                return unplanned(e);
            },
        }
        i += 1;
    }
    SyncPlan { statements, error: None }
}

/// Plans a pass of reconciliation for a database whose default
/// namespace is `default_schema`: what `plan_tables` plans in the
/// dialect of that database.
pub fn sync_tables(tables: &Vec<TableSchema>, db_tables: &Vec<TableSchema>, default_schema: &str) -> (r:
    SyncPlan)
    ensures
        r@ == planned(context_for(default_schema@), tables_view(tables@), tables_view(db_tables@)),
{
    let s = PgSchema::new(Context::new(String::from_str(default_schema)));
    plan_tables(&s, tables, db_tables)
}

/// Once the plan for the first `n` columns ends in an error, the plan
/// for more columns is the same.
proof fn lemma_columns_plan_ends_at_error(
    ctx: ContextView,
    t: TableView,
    db: TableView,
    n: int,
    m: int,
)
    requires
        0 <= n <= m <= t.columns.len(),
        columns_plan(ctx, t, db, n).error is Some,
    ensures
        columns_plan(ctx, t, db, m) == columns_plan(ctx, t, db, n),
    decreases m - n,
{
    if n < m {
        lemma_columns_plan_ends_at_error(ctx, t, db, n, m - 1);
    }
}

/// Once the plan for the first `n` tables ends in an error, the plan
/// for more tables is the same.
proof fn lemma_plan_ends_at_error(
    ctx: ContextView,
    tables: Seq<TableView>,
    live: Seq<TableView>,
    n: int,
    m: int,
)
    requires
        0 <= n <= m <= tables.len(),
        tables_plan(ctx, tables, live, n).error is Some,
    ensures
        tables_plan(ctx, tables, live, m) == tables_plan(ctx, tables, live, n),
    decreases m - n,
{
    if n < m {
        lemma_plan_ends_at_error(ctx, tables, live, n, m - 1);
    }
}

} // verus!
