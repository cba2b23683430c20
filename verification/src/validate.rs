//! The checks that a declaration must pass before anything is asked of
//! a database: a table declares columns, its indexes name declared
//! columns only, and no two of its indexes share a name.

use vstd::prelude::*;
use vstd::string::*;
use crate::error::{SchemaError, SchemaErrorView};
use crate::index::{indexes_view, Index, IndexView};
use crate::table::{tables_view, undeclared_index_column, TableSchema, TableView};
use crate::text::same_ignoring_case;

verus! {

/// Whether an index before the one at `k` has its name, whatever the
/// case of the letters.
pub open spec fn named_before(list: Seq<IndexView>, k: int) -> bool {
    exists|j: int| 0 <= j < k && same_ignoring_case((#[trigger] list[j]).name, list[k].name)
}

/// The name of the first of the first `n` indexes that an index before
/// it has too.
pub open spec fn repeated_name(list: Seq<IndexView>, n: int) -> Option<Seq<char>>
    decreases n,
{
    if n <= 0 || n > list.len() {
        None
    } else {
        match repeated_name(list, n - 1) {
            Some(name) => Some(name),
            None => if named_before(list, n - 1) {
                Some(list[n - 1].name)
            } else {
                None
            },
        }
    }
}

/// The index name that a table declares twice, if there is one.
pub open spec fn repeated_index_name(t: TableView) -> Option<Seq<char>> {
    match t.indexes {
        Some(list) => repeated_name(list, list.len() as int),
        None => None,
    }
}

/// What is wrong with the declaration of a table, if anything: it has
/// no columns, an index names a column that is not declared, or two
/// indexes share a name. The first of these that holds is reported.
pub open spec fn table_fault(t: TableView) -> Option<SchemaErrorView> {
    if t.columns.len() == 0 {
        Some(SchemaErrorView::EmptyTableDefinition(t.name))
    } else {
        match undeclared_index_column(t) {
            Some(name) => Some(SchemaErrorView::UndeclaredIndexColumn(name)),
            None => match repeated_index_name(t) {
                Some(name) => Some(SchemaErrorView::DuplicateIndexName(name)),
                None => None,
            },
        }
    }
}

/// What is wrong with the first of the first `n` tables that has
/// something wrong with it.
pub open spec fn first_fault(tables: Seq<TableView>, n: int) -> Option<SchemaErrorView>
    decreases n,
{
    if n <= 0 || n > tables.len() {
        None
    } else {
        match first_fault(tables, n - 1) {
            Some(e) => Some(e),
            None => table_fault(tables[n - 1]),
        }
    }
}

/// What is wrong with the first declared table that has something
/// wrong with it.
pub open spec fn declaration_fault(tables: Seq<TableView>) -> Option<SchemaErrorView> {
    first_fault(tables, tables.len() as int)
}

/// Once a table among the first `n` has something wrong with it, more
/// tables change nothing.
pub proof fn lemma_first_fault_stays(tables: Seq<TableView>, n: int, m: int)
    requires
        0 <= n <= m <= tables.len(),
        first_fault(tables, n) is Some,
    ensures
        first_fault(tables, m) == first_fault(tables, n),
    decreases m - n,
{
    if n < m {
        lemma_first_fault_stays(tables, n, m - 1);
    }
}

/// Tables with nothing wrong among them have nothing wrong each.
pub proof fn lemma_no_fault_in_any(tables: Seq<TableView>, n: int, k: int)
    requires
        0 <= k < n <= tables.len(),
        first_fault(tables, n) is None,
    ensures
        table_fault(tables[k]) is None,
    decreases n,
{
    if k < n - 1 {
        lemma_no_fault_in_any(tables, n - 1, k);
    }
}

fn is_named_before(list: &Vec<Index>, k: usize) -> (r: bool)
    requires
        k < list.len(),
    ensures
        r == named_before(indexes_view(list@), k as int),
{
    let ghost all = indexes_view(list@);
    let mut j: usize = 0;
    while j < k
        invariant
            j <= k < list.len(),
            all == indexes_view(list@),
            forall|i: int| 0 <= i < j ==> !same_ignoring_case((#[trigger] all[i]).name, all[k as int].name),
        decreases k - j,
    {
        assert(all[j as int] == list@[j as int]@);
        assert(all[k as int] == list@[k as int]@);
        if list[j].is_name_equal(&list[k]) {
            return true;
        }
        j += 1;
    }
    false
}

fn find_repeated_name(list: &Vec<Index>) -> (r: Option<String>)
    ensures
        match repeated_name(indexes_view(list@), list@.len() as int) {
            Some(name) => r is Some && r->0@ == name,
            None => r is None,
        },
{
    let ghost all = indexes_view(list@);
    let mut k: usize = 0;
    while k < list.len()
        invariant
            k <= list.len(),
            all == indexes_view(list@),
            repeated_name(all, k as int) is None,
        decreases list.len() - k,
    {
        if is_named_before(list, k) {
            assert(all[k as int] == list@[k as int]@);
            proof {
                lemma_repeated_name_stays(all, k + 1, list.len() as int);
            }
            return Some(list[k].name.clone());
        }
        k += 1;
    }
    None
}

/// Once a name is found twice among the first `n` indexes, more
/// indexes change nothing.
proof fn lemma_repeated_name_stays(list: Seq<IndexView>, n: int, m: int)
    requires
        0 <= n <= m <= list.len(),
        repeated_name(list, n) is Some,
    ensures
        repeated_name(list, m) == repeated_name(list, n),
    decreases m - n,
{
    if n < m {
        lemma_repeated_name_stays(list, n, m - 1);
    }
}

/// Checks the declaration of one table: `EmptyTableDefinition` where
/// it has no columns, `UndeclaredIndexColumn` where an index names a
/// column that is not declared, `DuplicateIndexName` where two indexes
/// share a name.
pub fn check_table(table: &TableSchema) -> (r: Result<(), SchemaError>)
    ensures
        match table_fault(table@) {
            Some(e) => r is Err && r->Err_0@ == e,
            None => r is Ok,
        },
{
    if table.columns.len() == 0 {
        return Err(SchemaError::EmptyTableDefinition(table.name.clone()));
    }
    match table.check_indexes_columns() {
        Ok(_) => {},
        Err(e) => {
            return Err(e);
        },
    }
    match &table.indexes {
        Some(list) => match find_repeated_name(list) {
            Some(name) => Err(SchemaError::DuplicateIndexName(name)),
            None => Ok(()),
        },
        None => Ok(()),
    }
}

/// Checks the declarations of all tables, in order, before anything is
/// asked of the database: the error is that of the first table that
/// has something wrong with it.
pub fn check_tables(tables: &Vec<TableSchema>) -> (r: Result<(), SchemaError>)
    ensures
        match declaration_fault(tables_view(tables@)) {
            Some(e) => r is Err && r->Err_0@ == e,
            None => r is Ok,
        },
{
    let ghost all = tables_view(tables@);
    let mut i: usize = 0;
    while i < tables.len()
        invariant
            i <= tables.len(),
            all == tables_view(tables@),
            first_fault(all, i as int) is None,
        decreases tables.len() - i,
    {
        assert(all[i as int] == tables@[i as int]@);
        match check_table(&tables[i]) {
            Ok(_) => {},
            Err(e) => {
                proof {
                    lemma_first_fault_stays(all, i + 1, tables.len() as int);
                }
                return Err(e);
            },
        }
        i += 1;
    }
    Ok(())
}

} // verus!
