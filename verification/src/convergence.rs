//! Reconciliation comes to rest: a table that was created as declared
//! needs no further statement.

use vstd::prelude::*;
use crate::column::{column_name, same_column_name, ColumnView};
use crate::context::{alter_statements, lacks_length, same_table_name, ContextView};
use crate::index::IndexView;
use crate::introspect::{reported_column, reported_type, row_is_autoincr, ColView};
use crate::postgres::{converted, rendered};
use crate::sync::{
    alter_plan, column_plan, columns_plan, create_plan, declared_indexes_statements,
    dropped_columns, dropped_indexes, first_same_index, first_same_name, index_statements,
    indexes_statements, is_declared, is_declared_index, live_column, live_index, live_table,
    no_plan, plan_of, plan_then, planned, table_plan, tables_plan, trim_columns_statements,
    trim_indexes_statements,
};
use crate::table::{qualified_name, TableView};
use crate::text::{lowercase, same_ignoring_case};
use crate::validate::{declaration_fault, first_fault, named_before, repeated_name, table_fault};

verus! {

/// Whether no two columns have the same name in the database, whatever
/// the case of the letters.
pub open spec fn distinct_column_names(columns: Seq<ColumnView>) -> bool {
    forall|i: int, j: int|
        0 <= i < j < columns.len() ==> !same_column_name(#[trigger] columns[i], #[trigger] columns[j])
}

/// Whether no two indexes have the same name, whatever the case of the
/// letters.
pub open spec fn distinct_index_names(list: Seq<IndexView>) -> bool {
    forall|i: int, j: int|
        0 <= i < j < list.len() ==> !same_ignoring_case(
            (#[trigger] list[i]).name,
            (#[trigger] list[j]).name,
        )
}

/// Those of the first `n` indexes that have columns: the ones that the
/// statements of a new table create.
pub open spec fn created_indexes(list: Seq<IndexView>, n: int) -> Seq<IndexView>
    decreases n,
{
    if n <= 0 || n > list.len() {
        Seq::empty()
    } else if list[n - 1].columns.len() > 0 {
        created_indexes(list, n - 1).push(list[n - 1])
    } else {
        created_indexes(list, n - 1)
    }
}

/// The indexes of a table once the statements that create it have run:
/// those with columns.
pub open spec fn indexes_once_created(t: TableView) -> Seq<IndexView> {
    match t.indexes {
        Some(list) => created_indexes(list, list.len() as int),
        None => Seq::empty(),
    }
}

/// Whether the live column `live` is the declared column `col` as the
/// database reports it: under the same name in the database, with a
/// type that the dialect writes the same, with the same nullability
/// and, unless the column is numbered by the database, the same
/// default. The name of the field, a type given by hand, the comment
/// and the primary key are not compared: a reported column has none of
/// the first three.
pub open spec fn mirrors(col: ColumnView, live: ColumnView) -> bool {
    &&& same_column_name(col, live)
    &&& converted(live) == converted(col)
    &&& live.nullable == col.nullable
    &&& (col.autoincr || live.default == col.default)
}

/// A reported column mirrors a declared one where the row that
/// reports it names the column, whatever the case of the letters,
/// gives a type that the dialect writes as it writes the declared one,
/// says the same of the nullability and, unless the declared column is
/// numbered by the database, gives the declared default.
pub proof fn law_reported_column_mirrors(col: ColumnView, row: ColView)
    requires
        same_ignoring_case(column_name(col), row.column_name),
        rendered(reported_type(row), row_is_autoincr(row)) == converted(col),
        (lowercase(row.is_nullable) == "yes"@) == col.nullable,
        col.autoincr || reported_column(row).default == col.default,
    ensures
        mirrors(col, reported_column(row)),
{
}

/// Whether the live columns are the declared ones as the database
/// reports them, one for one and in their order.
pub open spec fn columns_mirror(declared: Seq<ColumnView>, live: Seq<ColumnView>) -> bool {
    &&& live.len() == declared.len()
    &&& forall|i: int| 0 <= i < declared.len() ==> mirrors(#[trigger] declared[i], live[i])
}

/// Whether the live indexes are the given ones as the database reports
/// them, one for one and in their order: each under the same name,
/// whatever the case of the letters, and over the same columns.
pub open spec fn indexes_mirror(made: Seq<IndexView>, live: Seq<IndexView>) -> bool {
    &&& live.len() == made.len()
    &&& forall|k: int|
        0 <= k < made.len() ==> same_ignoring_case((#[trigger] made[k]).name, live[k].name)
            && made[k].columns == live[k].columns
}

/// The indexes of a live table; none where the table reports none.
pub open spec fn live_indexes(live: TableView) -> Seq<IndexView> {
    match live.indexes {
        Some(list) => list,
        None => Seq::empty(),
    }
}

/// Whether `live` is the declared table `t` as the database reports it
/// once the statements that create it have run: under the same name,
/// with the declared columns and with the declared indexes that have
/// columns.
pub open spec fn holds_as_created(ctx: ContextView, t: TableView, live: TableView) -> bool {
    &&& same_table_name(ctx, qualified_name(t), qualified_name(live))
    &&& columns_mirror(t.columns, live.columns)
    &&& indexes_mirror(indexes_once_created(t), live_indexes(live))
}

/// Whether a table is declared well: nothing is wrong with its
/// declaration, and no two of its columns have the same name in the
/// database.
pub open spec fn well_declared(t: TableView) -> bool {
    &&& table_fault(t) is None
    &&& distinct_column_names(t.columns)
}

/// Indexes of which none repeats the name of an earlier one have
/// names that are all different.
proof fn lemma_no_repeated_name(list: Seq<IndexView>, n: int)
    requires
        0 <= n <= list.len(),
        repeated_name(list, n) is None,
    ensures
        forall|i: int, j: int|
            0 <= i < j < n ==> !same_ignoring_case(
                (#[trigger] list[i]).name,
                (#[trigger] list[j]).name,
            ),
    decreases n,
{
    if n > 0 {
        lemma_no_repeated_name(list, n - 1);
        assert(!named_before(list, n - 1));
    }
}

/// The indexes of a table with nothing wrong in its declaration have
/// names that are all different.
proof fn lemma_index_names_are_distinct(t: TableView, list: Seq<IndexView>)
    requires
        table_fault(t) is None,
        t.indexes == Some(list),
    ensures
        distinct_index_names(list),
{
    assert(t.indexes->0 == list);
    lemma_no_repeated_name(list, list.len() as int);
}

/// Among the live columns, a declared column finds the one that
/// mirrors it.
proof fn lemma_finds_own_column(declared: Seq<ColumnView>, live: Seq<ColumnView>, k: int, i: int)
    requires
        distinct_column_names(declared),
        columns_mirror(declared, live),
        0 <= k <= i < declared.len(),
    ensures
        first_same_name(live.subrange(k, live.len() as int), declared[i]) == Some(live[i]),
    decreases i - k,
{
    let rest = live.subrange(k, live.len() as int);
    assert(rest[0] == live[k]);
    assert(mirrors(declared[i], live[i]));
    if k < i {
        assert(mirrors(declared[k], live[k]));
        assert(!same_column_name(declared[k], declared[i]));
        assert(!same_column_name(declared[i], live[k]));
        assert(rest.drop_first() =~= live.subrange(k + 1, live.len() as int));
        lemma_finds_own_column(declared, live, k + 1, i);
    }
}

proof fn lemma_columns_need_nothing(ctx: ContextView, t: TableView, live: TableView, n: int)
    requires
        distinct_column_names(t.columns),
        columns_mirror(t.columns, live.columns),
        0 <= n <= t.columns.len(),
    ensures
        columns_plan(ctx, t, live, n) == no_plan(),
    decreases n,
{
    if n > 0 {
        lemma_columns_need_nothing(ctx, t, live, n - 1);
        let col = t.columns[n - 1];
        let old = live.columns[n - 1];
        lemma_finds_own_column(t.columns, live.columns, 0, n - 1);
        assert(live.columns.subrange(0, live.columns.len() as int) =~= live.columns);
        assert(live_column(live.columns, col) == Some(old));
        assert(mirrors(col, old));
        assert(!lacks_length(old, col));
        assert(alter_statements(ctx, qualified_name(t), old, col, col.autoincr) =~= Seq::<
            Seq<char>,
        >::empty());
        let step = column_plan(ctx, t, live, col);
        assert(step == plan_of(Seq::<Seq<char>>::empty()));
        assert(no_plan().statements + step.statements =~= Seq::<Seq<char>>::empty());
    }
}

proof fn lemma_no_column_is_dropped(ctx: ContextView, t: TableView, live: TableView, n: int)
    requires
        columns_mirror(t.columns, live.columns),
        0 <= n <= live.columns.len(),
    ensures
        dropped_columns(ctx, t, live, n) == Seq::<Seq<char>>::empty(),
    decreases n,
{
    if n > 0 {
        lemma_no_column_is_dropped(ctx, t, live, n - 1);
        assert(mirrors(t.columns[n - 1], live.columns[n - 1]));
        assert(same_column_name(t.columns[n - 1], live.columns[n - 1]));
        assert(is_declared(t.columns, live.columns[n - 1]));
    }
}

/// What is found in a list with one more index at its end.
proof fn lemma_first_same_index_of_push(list: Seq<IndexView>, last: IndexView, idx: IndexView)
    ensures
        first_same_index(list.push(last), idx) == (match first_same_index(list, idx) {
            Some(found) => Some(found),
            None => if same_ignoring_case(last.name, idx.name) {
                Some(last)
            } else {
                None
            },
        }),
    decreases list.len(),
{
    let longer = list.push(last);
    assert(longer.len() == list.len() + 1);
    if list.len() == 0 {
        assert(longer[0] == last);
        assert(longer.drop_first() =~= Seq::<IndexView>::empty());
        assert(first_same_index(longer.drop_first(), idx) is None);
    } else {
        assert(longer[0] == list[0]);
        assert(longer.drop_first() =~= list.drop_first().push(last));
        lemma_first_same_index_of_push(list.drop_first(), last, idx);
    }
}

/// Among the created indexes, a declared index finds itself where it
/// was created, and nothing where it was not.
proof fn lemma_finds_own_index(list: Seq<IndexView>, m: int, n: int)
    requires
        distinct_index_names(list),
        0 <= m < list.len(),
        0 <= n <= list.len(),
    ensures
        first_same_index(created_indexes(list, n), list[m]) == (if m < n && list[m].columns.len()
            > 0 {
            Some(list[m])
        } else {
            None
        }),
    decreases n,
{
    if n > 0 {
        lemma_finds_own_index(list, m, n - 1);
        let before = created_indexes(list, n - 1);
        if list[n - 1].columns.len() > 0 {
            lemma_first_same_index_of_push(before, list[n - 1], list[m]);
            if n - 1 < m {
                assert(!same_ignoring_case(list[n - 1].name, list[m].name));
            } else if n - 1 > m {
                assert(!same_ignoring_case(list[m].name, list[n - 1].name));
            }
        }
    }
}

proof fn lemma_created_are_declared(list: Seq<IndexView>, n: int)
    requires
        0 <= n <= list.len(),
    ensures
        forall|k: int|
            0 <= k < created_indexes(list, n).len() ==> exists|j: int|
                0 <= j < n && (#[trigger] created_indexes(list, n)[k]) == list[j],
    decreases n,
{
    if n > 0 {
        lemma_created_are_declared(list, n - 1);
        let before = created_indexes(list, n - 1);
        let now = created_indexes(list, n);
        assert forall|k: int| 0 <= k < now.len() implies exists|j: int|
            0 <= j < n && (#[trigger] now[k]) == list[j] by {
            if k < before.len() {
                assert(now[k] == before[k]);
                let j = choose|j: int| 0 <= j < n - 1 && before[k] == list[j];
                assert(0 <= j < n && now[k] == list[j]);
            } else {
                assert(now[k] == list[n - 1]);
            }
        }
    }
}

/// What an index finds among the live indexes is what it finds among
/// those that they mirror: nothing in both, or indexes over the same
/// columns.
proof fn lemma_finds_the_mirrored_index(made: Seq<IndexView>, live: Seq<IndexView>, idx: IndexView)
    requires
        indexes_mirror(made, live),
    ensures
        match first_same_index(live, idx) {
            Some(found) => first_same_index(made, idx) is Some && first_same_index(
                made,
                idx,
            )->0.columns == found.columns,
            None => first_same_index(made, idx) is None,
        },
    decreases made.len(),
{
    if made.len() > 0 {
        assert(same_ignoring_case(made[0].name, live[0].name));
        assert(made[0].columns == live[0].columns);
        let made_rest = made.drop_first();
        let live_rest = live.drop_first();
        assert forall|k: int| 0 <= k < made_rest.len() implies same_ignoring_case(
            (#[trigger] made_rest[k]).name,
            live_rest[k].name,
        ) && made_rest[k].columns == live_rest[k].columns by {
            assert(made_rest[k] == made[k + 1]);
            assert(live_rest[k] == live[k + 1]);
        }
        lemma_finds_the_mirrored_index(made_rest, live_rest, idx);
    }
}

proof fn lemma_indexes_need_nothing(
    ctx: ContextView,
    t: TableView,
    live: TableView,
    list: Seq<IndexView>,
    n: int,
)
    requires
        t.indexes == Some(list),
        distinct_index_names(list),
        indexes_mirror(indexes_once_created(t), live_indexes(live)),
        0 <= n <= list.len(),
    ensures
        indexes_statements(ctx, t, live, list, n) == Seq::<Seq<char>>::empty(),
    decreases n,
{
    if n > 0 {
        lemma_indexes_need_nothing(ctx, t, live, list, n - 1);
        let idx = list[n - 1];
        let made = created_indexes(list, list.len() as int);
        assert(indexes_once_created(t) == made);
        lemma_finds_own_index(list, n - 1, list.len() as int);
        lemma_finds_the_mirrored_index(made, live_indexes(live), idx);
        match live.indexes {
            Some(found) => {
                assert(live_index(live, idx) == first_same_index(found, idx));
            },
            None => {
                assert(live_index(live, idx) is None);
                assert(first_same_index(live_indexes(live), idx) is None);
            },
        }
        assert(index_statements(ctx, t, live, idx) =~= Seq::<Seq<char>>::empty());
        assert(indexes_statements(ctx, t, live, list, n) =~= Seq::<Seq<char>>::empty());
    }
}

proof fn lemma_no_index_is_dropped(
    ctx: ContextView,
    t: TableView,
    live: TableView,
    list: Seq<IndexView>,
    found: Seq<IndexView>,
    n: int,
)
    requires
        t.indexes == Some(list),
        indexes_mirror(created_indexes(list, list.len() as int), found),
        0 <= n <= found.len(),
    ensures
        dropped_indexes(ctx, t, live, found, n) == Seq::<Seq<char>>::empty(),
    decreases n,
{
    if n > 0 {
        lemma_no_index_is_dropped(ctx, t, live, list, found, n - 1);
        let made = created_indexes(list, list.len() as int);
        lemma_created_are_declared(list, list.len() as int);
        let j = choose|j: int| 0 <= j < list.len() && made[n - 1] == list[j];
        assert(same_ignoring_case(made[n - 1].name, found[n - 1].name));
        assert(same_ignoring_case(list[j].name, found[n - 1].name));
        assert(t.indexes->0 == list);
        assert(is_declared_index(t, found[n - 1]));
    }
}

/// A table that is not live is created: where nothing is wrong with
/// its declaration, the plan for it is the statement that creates it,
/// then those that create its indexes.
pub proof fn law_missing_table_is_created(ctx: ContextView, t: TableView)
    requires
        table_fault(t) is None,
    ensures
        planned(ctx, seq![t], Seq::empty()) == create_plan(ctx, t),
        create_plan(ctx, t).error is None,
        create_plan(ctx, t).statements.len() > 0,
{
    let tables = seq![t];
    let live = Seq::<TableView>::empty();
    assert(tables_plan(ctx, tables, live, 0) == no_plan());
    assert(live_table(ctx, t, live) is None);
    let p = create_plan(ctx, t);
    assert(no_plan().statements + p.statements =~= p.statements);
    assert(plan_then(no_plan(), p) == p);
    assert(first_fault(tables, 0) is None);
    assert(tables[0] == t);
    assert(declaration_fault(tables) is None);
}

/// The plan that alters a table which holds as it was created is empty.
proof fn lemma_created_table_is_stable(ctx: ContextView, t: TableView, live: TableView)
    requires
        well_declared(t),
        holds_as_created(ctx, t, live),
    ensures
        alter_plan(ctx, t, live) == no_plan(),
{
    lemma_columns_need_nothing(ctx, t, live, t.columns.len() as int);
    if t.trim_columns {
        lemma_no_column_is_dropped(ctx, t, live, live.columns.len() as int);
    }
    assert(trim_columns_statements(ctx, t, live) == Seq::<Seq<char>>::empty());
    match t.indexes {
        Some(list) => {
            lemma_index_names_are_distinct(t, list);
            lemma_indexes_need_nothing(ctx, t, live, list, list.len() as int);
            match live.indexes {
                Some(found) => {
                    if t.trim_indexes {
                        lemma_no_index_is_dropped(ctx, t, live, list, found, found.len() as int);
                    }
                },
                None => {},
            }
        },
        None => {
            match live.indexes {
                Some(found) => {
                    assert(found.len() == 0);
                },
                None => {},
            }
        },
    }
    assert(declared_indexes_statements(ctx, t, live) == Seq::<Seq<char>>::empty());
    assert(trim_indexes_statements(ctx, t, live) == Seq::<Seq<char>>::empty());
    let rest = trim_columns_statements(ctx, t, live) + declared_indexes_statements(ctx, t, live)
        + trim_indexes_statements(ctx, t, live);
    assert(rest =~= Seq::<Seq<char>>::empty());
    assert(no_plan().statements + rest =~= Seq::<Seq<char>>::empty());
}

/// Reconciliation comes to rest. Once a declared table is live as the
/// database reports it after its creation (under its name, with
/// columns that mirror the declared ones and with those of its indexes
/// that have columns), a pass plans no statement and no error for it.
/// The table must be declared well: of two columns of one name the
/// second would be compared with the first.
pub proof fn law_created_table_is_stable(ctx: ContextView, t: TableView, live: TableView)
    requires
        well_declared(t),
        holds_as_created(ctx, t, live),
    ensures
        alter_plan(ctx, t, live) == no_plan(),
        planned(ctx, seq![t], seq![live]) == no_plan(),
{
    lemma_created_table_is_stable(ctx, t, live);
    let tables = seq![t];
    let lives = seq![live];
    assert(tables_plan(ctx, tables, lives, 0) == no_plan());
    assert(lives[0] == live);
    assert(live_table(ctx, t, lives) == Some(live));
    assert(table_plan(ctx, t, Some(live)) == no_plan());
    assert(no_plan().statements + no_plan().statements =~= Seq::<Seq<char>>::empty());
    assert(tables_plan(ctx, tables, lives, 1) == no_plan());
    assert(first_fault(tables, 0) is None);
    assert(tables[0] == t);
    assert(declaration_fault(tables) is None);
}

/// Whether each declared table is declared well and is found among the
/// live ones as the database reports it after its creation.
pub open spec fn all_hold_as_created(
    ctx: ContextView,
    tables: Seq<TableView>,
    lives: Seq<TableView>,
) -> bool {
    forall|i: int|
        0 <= i < tables.len() ==> well_declared(#[trigger] tables[i]) && live_table(
            ctx,
            tables[i],
            lives,
        ) is Some && holds_as_created(ctx, tables[i], live_table(ctx, tables[i], lives)->0)
}

proof fn lemma_tables_need_nothing(
    ctx: ContextView,
    tables: Seq<TableView>,
    lives: Seq<TableView>,
    n: int,
)
    requires
        all_hold_as_created(ctx, tables, lives),
        0 <= n <= tables.len(),
    ensures
        tables_plan(ctx, tables, lives, n) == no_plan(),
        first_fault(tables, n) is None,
    decreases n,
{
    if n > 0 {
        lemma_tables_need_nothing(ctx, tables, lives, n - 1);
        let t = tables[n - 1];
        let live = live_table(ctx, t, lives)->0;
        lemma_created_table_is_stable(ctx, t, live);
        assert(table_plan(ctx, t, live_table(ctx, t, lives)) == no_plan());
        assert(no_plan().statements + no_plan().statements =~= Seq::<Seq<char>>::empty());
    }
}

/// A second pass plans nothing. Once every declared table is live as
/// the database reports it after its creation, a pass over all of them
/// plans no statement and no error.
pub proof fn law_second_pass_plans_nothing(
    ctx: ContextView,
    tables: Seq<TableView>,
    lives: Seq<TableView>,
)
    requires
        all_hold_as_created(ctx, tables, lives),
    ensures
        planned(ctx, tables, lives) == no_plan(),
{
    lemma_tables_need_nothing(ctx, tables, lives, tables.len() as int);
}

} // verus!
