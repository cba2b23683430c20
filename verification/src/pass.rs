//! A whole pass of reconciliation: the tables to rebuild, then the
//! statements that bring the rest to its declaration.
//!
//! A table whose tag the ledger has not recorded is dropped and
//! recorded before anything else, and is planned as a table that is not
//! live. All of this is decided before the first statement is handed
//! out: a pass that ends in an error rebuilds nothing.

use vstd::prelude::*;
use vstd::string::*;
use crate::context::{same_table_name, Context, ContextView};
use crate::pg_schema::PgSchema;
use crate::schema::Schema;
use crate::sync::{
    check_recreate, context_for, needs_recreate, plan_tables, planned, recreate_step, PlanView,
    RecreateStep, RecreateStepView, SyncPlan,
};
use crate::table::{qualified_name, tables_view, TableSchema, TableView};
use crate::text::views;

verus! {

/// What a pass does: the tables to drop and record first, in order,
/// then the plan for all declared tables.
#[derive(Debug)]
pub struct PassPlan {
    pub rebuilds: Vec<RecreateStep>,
    pub plan: SyncPlan,
}

/// A pass as plain values.
pub struct PassView {
    pub rebuilds: Seq<RecreateStepView>,
    pub plan: PlanView,
}

/// The views of a list of steps.
pub open spec fn steps_view(list: Seq<RecreateStep>) -> Seq<RecreateStepView> {
    list.map_values(|s: RecreateStep| s@)
}

impl View for PassPlan {
    type V = PassView;

    open spec fn view(&self) -> PassView {
        PassView { rebuilds: steps_view(self.rebuilds@), plan: self.plan@ }
    }
}

/// What the ledger has recorded for each declared table, as plain values.
pub open spec fn ledger_view(recorded: Seq<Vec<String>>) -> Seq<Seq<Seq<char>>> {
    recorded.map_values(|values: Vec<String>| views(values@))
}

/// What the ledger has recorded for the declared table at `k`: nothing
/// where the ledger was not read for it.
pub open spec fn recorded_for(recorded: Seq<Seq<Seq<char>>>, k: int) -> Seq<Seq<char>> {
    if 0 <= k < recorded.len() {
        recorded[k]
    } else {
        Seq::empty()
    }
}

/// The steps that rebuild those of the first `n` declared tables whose
/// tag is not recorded, in the order of the tables.
pub open spec fn rebuild_steps(
    ctx: ContextView,
    tables: Seq<TableView>,
    recorded: Seq<Seq<Seq<char>>>,
    n: int,
) -> Seq<RecreateStepView>
    decreases n,
{
    if n <= 0 || n > tables.len() {
        Seq::empty()
    } else if needs_recreate(tables[n - 1], recorded_for(recorded, n - 1)) {
        rebuild_steps(ctx, tables, recorded, n - 1).push(recreate_step(ctx, tables[n - 1]))
    } else {
        rebuild_steps(ctx, tables, recorded, n - 1)
    }
}

/// Whether the live table `live` is rebuilt: one of the first `n`
/// declared tables has its name and a tag that is not recorded.
pub open spec fn is_rebuilt(
    ctx: ContextView,
    tables: Seq<TableView>,
    recorded: Seq<Seq<Seq<char>>>,
    live: TableView,
    n: int,
) -> bool {
    exists|k: int|
        0 <= k < n && k < tables.len() && needs_recreate(
            #[trigger] tables[k],
            recorded_for(recorded, k),
        ) && same_table_name(ctx, qualified_name(tables[k]), qualified_name(live))
}

/// Those of the first `n` live tables that are not rebuilt: what is
/// live once the rebuilt tables are dropped.
pub open spec fn live_after_rebuild(
    ctx: ContextView,
    tables: Seq<TableView>,
    recorded: Seq<Seq<Seq<char>>>,
    live: Seq<TableView>,
    n: int,
) -> Seq<TableView>
    decreases n,
{
    if n <= 0 || n > live.len() {
        Seq::empty()
    } else if is_rebuilt(ctx, tables, recorded, live[n - 1], tables.len() as int) {
        live_after_rebuild(ctx, tables, recorded, live, n - 1)
    } else {
        live_after_rebuild(ctx, tables, recorded, live, n - 1).push(live[n - 1])
    }
}

/// A whole pass. The plan is that for the declared tables against what
/// is live once the rebuilt tables are dropped. Where it is an error,
/// nothing is rebuilt; else the tables whose tag is not recorded are
/// rebuilt, in their order.
pub open spec fn pass_planned(
    ctx: ContextView,
    tables: Seq<TableView>,
    recorded: Seq<Seq<Seq<char>>>,
    live: Seq<TableView>,
) -> PassView {
    let plan = planned(
        ctx,
        tables,
        live_after_rebuild(ctx, tables, recorded, live, live.len() as int),
    );
    PassView {
        rebuilds: if plan.error is Some {
            Seq::empty()
        } else {
            rebuild_steps(ctx, tables, recorded, tables.len() as int)
        },
        plan,
    }
}

/// A pass that ends in an error does nothing at all: it rebuilds no
/// table and hands out no statement.
pub proof fn law_failed_pass_does_nothing(
    ctx: ContextView,
    tables: Seq<TableView>,
    recorded: Seq<Seq<Seq<char>>>,
    live: Seq<TableView>,
)
    ensures
        pass_planned(ctx, tables, recorded, live).plan.error is Some ==> pass_planned(
            ctx,
            tables,
            recorded,
            live,
        ).rebuilds.len() == 0 && pass_planned(ctx, tables, recorded, live).plan.statements.len()
            == 0,
{
}

/// A pass over tables whose tags are all recorded rebuilds nothing and
/// plans against all that is live.
pub proof fn law_recorded_tags_rebuild_nothing(
    ctx: ContextView,
    tables: Seq<TableView>,
    recorded: Seq<Seq<Seq<char>>>,
    live: Seq<TableView>,
)
    requires
        forall|k: int|
            0 <= k < tables.len() ==> !needs_recreate(
                #[trigger] tables[k],
                recorded_for(recorded, k),
            ),
    ensures
        pass_planned(ctx, tables, recorded, live).rebuilds.len() == 0,
        pass_planned(ctx, tables, recorded, live).plan == planned(ctx, tables, live),
{
    lemma_nothing_to_rebuild(ctx, tables, recorded, tables.len() as int);
    lemma_all_stay_live(ctx, tables, recorded, live, live.len() as int);
    assert(live.take(live.len() as int) =~= live);
}

proof fn lemma_nothing_to_rebuild(
    ctx: ContextView,
    tables: Seq<TableView>,
    recorded: Seq<Seq<Seq<char>>>,
    n: int,
)
    requires
        0 <= n <= tables.len(),
        forall|k: int|
            0 <= k < tables.len() ==> !needs_recreate(
                #[trigger] tables[k],
                recorded_for(recorded, k),
            ),
    ensures
        rebuild_steps(ctx, tables, recorded, n).len() == 0,
    decreases n,
{
    if n > 0 {
        lemma_nothing_to_rebuild(ctx, tables, recorded, n - 1);
    }
}

proof fn lemma_all_stay_live(
    ctx: ContextView,
    tables: Seq<TableView>,
    recorded: Seq<Seq<Seq<char>>>,
    live: Seq<TableView>,
    n: int,
)
    requires
        0 <= n <= live.len(),
        forall|k: int|
            0 <= k < tables.len() ==> !needs_recreate(
                #[trigger] tables[k],
                recorded_for(recorded, k),
            ),
    ensures
        live_after_rebuild(ctx, tables, recorded, live, n) == live.take(n),
    decreases n,
{
    if n > 0 {
        lemma_all_stay_live(ctx, tables, recorded, live, n - 1);
        assert(!is_rebuilt(ctx, tables, recorded, live[n - 1], tables.len() as int));
        assert(live.take(n - 1).push(live[n - 1]) =~= live.take(n));
    } else {
        assert(live.take(0) =~= Seq::<TableView>::empty());
    }
}

/// Decides whether the declared table at `k` is rebuilt.
fn decide_rebuild<S: Schema>(
    s: &S,
    tables: &Vec<TableSchema>,
    recorded: &Vec<Vec<String>>,
    k: usize,
) -> (r: Option<RecreateStep>)
    requires
        k < tables@.len(),
    ensures
        match r {
            Some(step) => needs_recreate(
                tables@[k as int]@,
                recorded_for(ledger_view(recorded@), k as int),
            ) && step@ == recreate_step(s.context(), tables@[k as int]@),
            None => !needs_recreate(
                tables@[k as int]@,
                recorded_for(ledger_view(recorded@), k as int),
            ),
        },
{
    if k < recorded.len() {
        assert(ledger_view(recorded@)[k as int] == views(recorded@[k as int]@));
        check_recreate(s, &tables[k], &recorded[k])
    } else {
        let nothing: Vec<String> = Vec::new();
        assert(views(nothing@) =~= Seq::<Seq<char>>::empty());
        check_recreate(s, &tables[k], &nothing)
    }
}

/// Whether a live table is rebuilt.
fn rebuilds_table<S: Schema>(
    s: &S,
    tables: &Vec<TableSchema>,
    recorded: &Vec<Vec<String>>,
    live: &TableSchema,
) -> (r: bool)
    ensures
        r == is_rebuilt(
            s.context(),
            tables_view(tables@),
            ledger_view(recorded@),
            live@,
            tables@.len() as int,
        ),
{
    let ghost all = tables_view(tables@);
    let ghost ledger = ledger_view(recorded@);
    let mut k: usize = 0;
    while k < tables.len()
        invariant
            k <= tables.len(),
            all == tables_view(tables@),
            ledger == ledger_view(recorded@),
            !is_rebuilt(s.context(), all, ledger, live@, k as int),
        decreases tables.len() - k,
    {
        assert(all[k as int] == tables@[k as int]@);
        if decide_rebuild(s, tables, recorded, k).is_some() && s.is_table_name_equal(
            &tables[k],
            live,
        ) {
            assert(is_rebuilt(s.context(), all, ledger, live@, tables@.len() as int));
            return true;
        }
        proof {
            if is_rebuilt(s.context(), all, ledger, live@, k + 1) {
                let j = choose|j: int|
                    0 <= j < k + 1 && j < all.len() && needs_recreate(
                        #[trigger] all[j],
                        recorded_for(ledger, j),
                    ) && same_table_name(s.context(), qualified_name(all[j]), qualified_name(live@));
                if j < k {
                    assert(is_rebuilt(s.context(), all, ledger, live@, k as int));
                }
            }
        }
        k += 1;
    }
    false
}

/// The live tables that are not rebuilt.
fn keep_live<S: Schema>(
    s: &S,
    tables: &Vec<TableSchema>,
    recorded: &Vec<Vec<String>>,
    db_tables: &Vec<TableSchema>,
) -> (r: Vec<TableSchema>)
    ensures
        tables_view(r@) == live_after_rebuild(
            s.context(),
            tables_view(tables@),
            ledger_view(recorded@),
            tables_view(db_tables@),
            db_tables@.len() as int,
        ),
{
    let ghost ctx = s.context();
    let ghost all = tables_view(tables@);
    let ghost ledger = ledger_view(recorded@);
    let ghost live = tables_view(db_tables@);
    let mut kept: Vec<TableSchema> = Vec::new();
    let mut i: usize = 0;
    proof {
        assert(tables_view(kept@) =~= live_after_rebuild(ctx, all, ledger, live, 0));
    }
    while i < db_tables.len()
        invariant
            i <= db_tables.len(),
            ctx == s.context(),
            all == tables_view(tables@),
            ledger == ledger_view(recorded@),
            live == tables_view(db_tables@),
            tables_view(kept@) == live_after_rebuild(ctx, all, ledger, live, i as int),
        decreases db_tables.len() - i,
    {
        assert(live[i as int] == db_tables@[i as int]@);
        if !rebuilds_table(s, tables, recorded, &db_tables[i]) {
            let ghost before = kept@;
            let table = db_tables[i].clone();
            kept.push(table);
            assert(tables_view(kept@) =~= tables_view(before).push(table@));
        }
        i += 1;
    }
    kept
}

/// The steps that rebuild the tables whose tag is not recorded.
fn rebuilds_of<S: Schema>(s: &S, tables: &Vec<TableSchema>, recorded: &Vec<Vec<String>>) -> (r: Vec<
    RecreateStep,
>)
    ensures
        steps_view(r@) == rebuild_steps(
            s.context(),
            tables_view(tables@),
            ledger_view(recorded@),
            tables@.len() as int,
        ),
{
    let ghost ctx = s.context();
    let ghost all = tables_view(tables@);
    let ghost ledger = ledger_view(recorded@);
    let mut steps: Vec<RecreateStep> = Vec::new();
    let mut i: usize = 0;
    proof {
        assert(steps_view(steps@) =~= rebuild_steps(ctx, all, ledger, 0));
    }
    while i < tables.len()
        invariant
            i <= tables.len(),
            ctx == s.context(),
            all == tables_view(tables@),
            ledger == ledger_view(recorded@),
            steps_view(steps@) == rebuild_steps(ctx, all, ledger, i as int),
        decreases tables.len() - i,
    {
        assert(all[i as int] == tables@[i as int]@);
        match decide_rebuild(s, tables, recorded, i) {
            Some(step) => {
                let ghost before = steps@;
                steps.push(step);
                assert(steps_view(steps@) =~= steps_view(before).push(step@));
            },
            None => {},
        }
        i += 1;
    }
    steps
}

/// Plans a whole pass in the dialect `s`, for the declared tables
/// `tables`, the values `recorded` that the ledger holds for each of
/// them, in their order, under the tag of rebuilt tables, and the live
/// tables `db_tables`. A table for which `recorded` holds no entry has
/// nothing recorded. Nothing is to be executed where the plan is an
/// error.
pub fn plan_pass<S: Schema>(
    s: &S,
    tables: &Vec<TableSchema>,
    recorded: &Vec<Vec<String>>,
    db_tables: &Vec<TableSchema>,
) -> (r: PassPlan)
    ensures
        r@ == pass_planned(
            s.context(),
            tables_view(tables@),
            ledger_view(recorded@),
            tables_view(db_tables@),
        ),
{
    let kept = keep_live(s, tables, recorded, db_tables);
    let plan = plan_tables(s, tables, &kept);
    let rebuilds = if plan.error.is_some() {
        let none: Vec<RecreateStep> = Vec::new();
        assert(steps_view(none@) =~= Seq::<RecreateStepView>::empty());
        none
    } else {
        rebuilds_of(s, tables, recorded)
    };
    PassPlan { rebuilds, plan }
}

/// Plans a whole pass for a database whose default namespace is
/// `default_schema`: what `plan_pass` plans in the dialect of that
/// database.
pub fn sync_pass(
    tables: &Vec<TableSchema>,
    recorded: &Vec<Vec<String>>,
    db_tables: &Vec<TableSchema>,
    default_schema: &str,
) -> (r: PassPlan)
    ensures
        r@ == pass_planned(
            context_for(default_schema@),
            tables_view(tables@),
            ledger_view(recorded@),
            tables_view(db_tables@),
        ),
{
    let s = PgSchema::new(Context::new(String::from_str(default_schema)));
    plan_pass(&s, tables, recorded, db_tables)
}

} // verus!
