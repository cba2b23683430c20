//! What an entity offers for its table: values, conditions and
//! orderings for its columns, and builders for its rows.
//!
//! A row is a list of values, one for each column of the table, in the
//! order of the columns.

use vstd::prelude::*;
use vstd::string::*;
use crate::builder::{
    DeleteBuilder, DeleteView, InsertBuilder, InsertView, SelectBuilder, SelectView,
    UpdateBuilder, UpdateView,
};
use crate::column::{column_name, columns_view, Column, ColumnView};
use crate::condition::{
    joined_and, operator_name, CondView, Condition, Operator, WhereAppend,
};
use crate::page::{Order, OrderType, OrderView};
use crate::rust_types::R_STRING;
use crate::table::TableSchema;
use crate::text::same_text;
use crate::value::{is_null, values_view, Pair, PairView, Value, ValueView};

verus! {

/// The operators for which a column offers a condition: the list and
/// the comparisons for every column, `like` for a text, and the two
/// tests for `NULL` for a column that may be empty.
pub open spec fn offered_operators(col: ColumnView, rust_type: Seq<char>) -> Seq<Operator> {
    seq![
        Operator::In,
        Operator::Eq,
        Operator::Neq,
        Operator::Lt,
        Operator::Le,
        Operator::Gt,
        Operator::Ge,
    ] + (if rust_type == R_STRING@ {
        seq![Operator::Like]
    } else {
        Seq::empty()
    }) + (if col.nullable {
        seq![Operator::IsNull, Operator::IsNotNull]
    } else {
        Seq::empty()
    })
}

/// The name under which an entity offers a condition on a field.
pub open spec fn condition_name(field_name: Seq<char>, op: Operator) -> Seq<char> {
    field_name + "_"@ + operator_name(op)
}

/// The pair of a column and a value.
pub open spec fn pair_of(col: ColumnView, value: ValueView) -> PairView {
    PairView { name: column_name(col), value }
}

/// The condition that a column equals a value.
pub open spec fn equals(col: ColumnView, value: ValueView) -> CondView {
    CondView::Leaf { name: column_name(col), value, op: Operator::Eq }
}

/// Whether a row has one value for each column.
pub open spec fn fits_columns(columns: Seq<ColumnView>, row: Seq<ValueView>) -> bool {
    row.len() == columns.len()
}

/// The pairs of the first `n` columns and their values.
pub open spec fn row_pairs(columns: Seq<ColumnView>, row: Seq<ValueView>, n: int) -> Seq<PairView>
    decreases n,
{
    if n <= 0 || n > columns.len() || n > row.len() {
        Seq::empty()
    } else {
        row_pairs(columns, row, n - 1).push(pair_of(columns[n - 1], row[n - 1]))
    }
}

/// The pairs of those of the first `n` columns that are outside the
/// primary key, and their values.
pub open spec fn set_pairs(columns: Seq<ColumnView>, row: Seq<ValueView>, n: int) -> Seq<PairView>
    decreases n,
{
    if n <= 0 || n > columns.len() || n > row.len() {
        Seq::empty()
    } else if columns[n - 1].pk {
        set_pairs(columns, row, n - 1)
    } else {
        set_pairs(columns, row, n - 1).push(pair_of(columns[n - 1], row[n - 1]))
    }
}

/// Whether a column of the primary key takes part in finding a row: it
/// does, unless it may be empty, is empty in the row, and empty keys
/// are to be left out.
pub open spec fn is_key_of(col: ColumnView, value: ValueView, skip_null: bool) -> bool {
    col.pk && !(skip_null && col.nullable && is_null(value))
}

/// The condition that finds a row by the columns of the primary key
/// among the first `n` columns: each equals its value in the row, and
/// all are joined by `and`.
pub open spec fn key_condition(
    columns: Seq<ColumnView>,
    row: Seq<ValueView>,
    n: int,
    skip_null: bool,
) -> Option<CondView>
    decreases n,
{
    if n <= 0 || n > columns.len() || n > row.len() {
        None
    } else if is_key_of(columns[n - 1], row[n - 1], skip_null) {
        joined_and(
            key_condition(columns, row, n - 1, skip_null),
            Some(equals(columns[n - 1], row[n - 1])),
        )
    } else {
        key_condition(columns, row, n - 1, skip_null)
    }
}

/// How many of the first `n` columns belong to the primary key.
pub open spec fn keys_among(columns: Seq<ColumnView>, n: int) -> int
    decreases n,
{
    if n <= 0 || n > columns.len() {
        0
    } else if columns[n - 1].pk {
        keys_among(columns, n - 1) + 1
    } else {
        keys_among(columns, n - 1)
    }
}

/// The condition that finds a row by the values `ids` of its primary
/// key, one for each column of the key among the first `n` columns, in
/// the order of the columns.
pub open spec fn id_condition(columns: Seq<ColumnView>, ids: Seq<ValueView>, n: int) -> Option<
    CondView,
>
    decreases n,
{
    if n <= 0 || n > columns.len() {
        None
    } else if columns[n - 1].pk {
        joined_and(
            id_condition(columns, ids, n - 1),
            Some(equals(columns[n - 1], ids[keys_among(columns, n - 1)])),
        )
    } else {
        id_condition(columns, ids, n - 1)
    }
}

/// The operators for which `col`, a field of the type `rust_type`,
/// offers a condition.
pub fn create_conditions(col: &Column, rust_type: &String) -> (r: Vec<Operator>)
    ensures
        r@ == offered_operators(col@, rust_type@),
{
    let mut ops: Vec<Operator> = Vec::new();
    ops.push(Operator::In);
    ops.push(Operator::Eq);
    ops.push(Operator::Neq);
    ops.push(Operator::Lt);
    ops.push(Operator::Le);
    ops.push(Operator::Gt);
    ops.push(Operator::Ge);
    if same_text(rust_type.as_str(), R_STRING) {
        ops.push(Operator::Like);
    }
    if col.nullable {
        ops.push(Operator::IsNull);
        ops.push(Operator::IsNotNull);
    }
    assert(ops@ =~= offered_operators(col@, rust_type@));
    ops
}

/// The name under which an entity offers the condition `op` on the
/// field `field_name`.
pub fn condition_func_name(field_name: &String, op: Operator) -> (r: String)
    ensures
        r@ == condition_name(field_name@, op),
{
    let mut name = field_name.clone();
    name.append("_");
    name.append(op.to_string().as_str());
    name
}

/// The condition that compares the column `col_name` with `value`.
pub fn create_condition_func(col_name: &String, op: Operator, value: Value) -> (r: Condition)
    ensures
        r@ == (CondView::Leaf { name: col_name@, value: value@, op }),
{
    Condition::Condition(Pair { name: col_name.clone(), value }, op)
}

/// The pair of the column `col` and a value for it.
pub fn create_field_wrapper(col: &Column, value: Value) -> (r: Pair)
    ensures
        r@ == pair_of(col@, value@),
{
    Pair { name: col.get_column_name(), value }
}

/// The orderings by the field of `col`: rising, falling, and as the
/// database chooses.
pub fn create_order_func(col: &Column) -> (r: (Order, Order, Order))
    ensures
        r.0@ == (OrderView { field: col@.name, order_type: OrderType::Asc }),
        r.1@ == (OrderView { field: col@.name, order_type: OrderType::Desc }),
        r.2@ == (OrderView { field: col@.name, order_type: OrderType::Unspecified }),
{
    (Order::asc(col.name.clone()), Order::desc(col.name.clone()), Order::new(col.name.clone()))
}

/// A builder that inserts into `table`.
pub fn create_insert_builder(table: TableSchema) -> (r: InsertBuilder<'static>)
    ensures
        r@ == (InsertView { table: table@, default_schema: Seq::empty(), columns: Seq::empty() }),
{
    InsertBuilder::new(table)
}

/// A builder that updates `table`.
pub fn create_update_builder(table: TableSchema) -> (r: UpdateBuilder<'static>)
    ensures
        r@ == (UpdateView {
            table: table@,
            default_schema: Seq::empty(),
            columns: Seq::empty(),
            wh: None,
        }),
{
    UpdateBuilder::new(table)
}

/// A builder that deletes from `table`.
pub fn create_delete_builder(table: TableSchema) -> (r: DeleteBuilder<'static>)
    ensures
        r@ == (DeleteView { table: table@, default_schema: Seq::empty(), wh: None }),
{
    DeleteBuilder::new(table)
}

/// A builder that selects from `table`.
pub fn create_select_builder(table: TableSchema) -> (r: SelectBuilder<'static>)
    ensures
        r@ == (SelectView {
            table: table@,
            default_schema: Seq::empty(),
            wh: None,
            orders: Seq::empty(),
        }),
{
    SelectBuilder::new(table)
}

/// The builder that inserts `row` into `table`, with all its columns;
/// none where the row has not one value for each column.
pub fn create_insert(table: &TableSchema, row: &Vec<Value>) -> (r: Option<InsertBuilder<'static>>)
    ensures
        match r {
            Some(b) => fits_columns(table@.columns, values_view(row@)) && b@ == (InsertView {
                table: table@,
                default_schema: Seq::empty(),
                columns: row_pairs(table@.columns, values_view(row@), row@.len() as int),
            }),
            None => !fits_columns(table@.columns, values_view(row@)),
        },
{
    if row.len() != table.columns.len() {
        return None;
    }
    let ghost columns = table@.columns;
    let ghost values = values_view(row@);
    let mut builder = InsertBuilder::new(table.clone());
    let mut i: usize = 0;
    proof {
        assert(builder@.columns =~= row_pairs(columns, values, 0));
    }
    while i < row.len()
        invariant
            i <= row.len(),
            row.len() == table.columns.len(),
            columns == columns_view(table.columns@),
            values == values_view(row@),
            builder@ == (InsertView {
                table: table@,
                default_schema: Seq::empty(),
                columns: row_pairs(columns, values, i as int),
            }),
        decreases row.len() - i,
    {
        assert(columns[i as int] == table.columns@[i as int]@);
        assert(values[i as int] == row@[i as int]@);
        builder.add_column(create_field_wrapper(&table.columns[i], row[i].clone()));
        i += 1;
    }
    Some(builder)
}

/// The builder that updates the row of `table` that has the primary
/// key of `row`: the columns outside the key are set to their values in
/// `row`. None where the row has not one value for each column.
pub fn create_update(table: &TableSchema, row: &Vec<Value>) -> (r: Option<UpdateBuilder<'static>>)
    ensures
        match r {
            Some(b) => fits_columns(table@.columns, values_view(row@)) && b@ == (UpdateView {
                table: table@,
                default_schema: Seq::empty(),
                columns: set_pairs(table@.columns, values_view(row@), row@.len() as int),
                wh: key_condition(table@.columns, values_view(row@), row@.len() as int, false),
            }),
            None => !fits_columns(table@.columns, values_view(row@)),
        },
{
    if row.len() != table.columns.len() {
        return None;
    }
    let ghost columns = table@.columns;
    let ghost values = values_view(row@);
    let mut builder = UpdateBuilder::new(table.clone());
    let mut i: usize = 0;
    proof {
        assert(builder@.columns =~= set_pairs(columns, values, 0));
    }
    while i < row.len()
        invariant
            i <= row.len(),
            row.len() == table.columns.len(),
            columns == columns_view(table.columns@),
            values == values_view(row@),
            builder@ == (UpdateView {
                table: table@,
                default_schema: Seq::empty(),
                columns: set_pairs(columns, values, i as int),
                wh: key_condition(columns, values, i as int, false),
            }),
        decreases row.len() - i,
    {
        let col = &table.columns[i];
        assert(columns[i as int] == col@);
        assert(values[i as int] == row@[i as int]@);
        if col.pk {
            let cond = create_condition_func(&col.get_column_name(), Operator::Eq, row[i].clone());
            builder = builder.and(cond);
        } else {
            builder = builder.set_column(create_field_wrapper(col, row[i].clone()));
        }
        i += 1;
    }
    Some(builder)
}

/// The builder that deletes the row of `table` that has the primary
/// key of `row`. A column of the key that may be empty and is empty in
/// the row is left out of the condition. None where the row has not
/// one value for each column.
pub fn create_delete(table: &TableSchema, row: &Vec<Value>) -> (r: Option<DeleteBuilder<'static>>)
    ensures
        match r {
            Some(b) => fits_columns(table@.columns, values_view(row@)) && b@ == (DeleteView {
                table: table@,
                default_schema: Seq::empty(),
                wh: key_condition(table@.columns, values_view(row@), row@.len() as int, true),
            }),
            None => !fits_columns(table@.columns, values_view(row@)),
        },
{
    if row.len() != table.columns.len() {
        return None;
    }
    let ghost columns = table@.columns;
    let ghost values = values_view(row@);
    let mut builder = DeleteBuilder::new(table.clone());
    let mut i: usize = 0;
    while i < row.len()
        invariant
            i <= row.len(),
            row.len() == table.columns.len(),
            columns == columns_view(table.columns@),
            values == values_view(row@),
            builder@ == (DeleteView {
                table: table@,
                default_schema: Seq::empty(),
                wh: key_condition(columns, values, i as int, true),
            }),
        decreases row.len() - i,
    {
        let col = &table.columns[i];
        assert(columns[i as int] == col@);
        assert(values[i as int] == row@[i as int]@);
        if col.pk && !(col.nullable && row[i].is_null()) {
            let cond = create_condition_func(&col.get_column_name(), Operator::Eq, row[i].clone());
            builder = builder.and(cond);
        }
        i += 1;
    }
    Some(builder)
}

/// The builder that deletes the row of `table` with the primary key
/// `ids`; none where `ids` has not one value for each column of the key.
pub fn create_delete_by_id(table: &TableSchema, ids: &Vec<Value>) -> (r: Option<
    DeleteBuilder<'static>,
>)
    ensures
        match r {
            Some(b) => ids@.len() == keys_among(table@.columns, table@.columns.len() as int) && b@
                == (DeleteView {
                table: table@,
                default_schema: Seq::empty(),
                wh: id_condition(table@.columns, values_view(ids@), table@.columns.len() as int),
            }),
            None => ids@.len() != keys_among(table@.columns, table@.columns.len() as int),
        },
{
    let ghost columns = table@.columns;
    let ghost values = values_view(ids@);
    let mut builder = DeleteBuilder::new(table.clone());
    let mut i: usize = 0;
    let mut k: usize = 0;
    while i < table.columns.len()
        invariant
            i <= table.columns.len(),
            columns == columns_view(table.columns@),
            values == values_view(ids@),
            k == keys_among(columns, i as int),
            k <= ids.len(),
            builder@ == (DeleteView {
                table: table@,
                default_schema: Seq::empty(),
                wh: id_condition(columns, values, i as int),
            }),
        decreases table.columns.len() - i,
    {
        let col = &table.columns[i];
        assert(columns[i as int] == col@);
        if col.pk {
            if k >= ids.len() {
                proof {
                    lemma_keys_grow(columns, i + 1, columns.len() as int);
                }
                return None;
            }
            assert(values[k as int] == ids@[k as int]@);
            let cond = create_condition_func(&col.get_column_name(), Operator::Eq, ids[k].clone());
            builder = builder.and(cond);
            k += 1;
        }
        i += 1;
    }
    if k != ids.len() {
        return None;
    }
    Some(builder)
}

/// The builder that selects the row of `table` with the primary key
/// `ids`; none where `ids` has not one value for each column of the key.
pub fn create_select_by_id(table: &TableSchema, ids: &Vec<Value>) -> (r: Option<
    SelectBuilder<'static>,
>)
    ensures
        match r {
            Some(b) => ids@.len() == keys_among(table@.columns, table@.columns.len() as int) && b@
                == (SelectView {
                table: table@,
                default_schema: Seq::empty(),
                wh: id_condition(table@.columns, values_view(ids@), table@.columns.len() as int),
                orders: Seq::empty(),
            }),
            None => ids@.len() != keys_among(table@.columns, table@.columns.len() as int),
        },
{
    let ghost columns = table@.columns;
    let ghost values = values_view(ids@);
    let mut builder = SelectBuilder::new(table.clone());
    let mut i: usize = 0;
    let mut k: usize = 0;
    while i < table.columns.len()
        invariant
            i <= table.columns.len(),
            columns == columns_view(table.columns@),
            values == values_view(ids@),
            k == keys_among(columns, i as int),
            k <= ids.len(),
            builder@ == (SelectView {
                table: table@,
                default_schema: Seq::empty(),
                wh: id_condition(columns, values, i as int),
                orders: Seq::empty(),
            }),
        decreases table.columns.len() - i,
    {
        let col = &table.columns[i];
        assert(columns[i as int] == col@);
        if col.pk {
            if k >= ids.len() {
                proof {
                    lemma_keys_grow(columns, i + 1, columns.len() as int);
                }
                return None;
            }
            assert(values[k as int] == ids@[k as int]@);
            let cond = create_condition_func(&col.get_column_name(), Operator::Eq, ids[k].clone());
            builder = builder.and(cond);
            k += 1;
        }
        i += 1;
    }
    if k != ids.len() {
        return None;
    }
    Some(builder)
}

proof fn lemma_keys_grow(columns: Seq<ColumnView>, n: int, m: int)
    requires
        0 <= n <= m <= columns.len(),
    ensures
        keys_among(columns, n) <= keys_among(columns, m),
    decreases m - n,
{
    if n < m {
        lemma_keys_grow(columns, n, m - 1);
    }
}

} // verus!
