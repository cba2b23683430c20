//! The builders of statements that read and change rows.
//!
//! A builder collects the table, the values and the condition, and
//! gives the statement with the values for its placeholders. Executing
//! the statement is left to the caller.

use vstd::prelude::*;
use vstd::string::*;
use crate::condition::{
    joined_and, joined_or, where_bound, where_slots, CondView, Condition, Where, WhereAppend,
};
use crate::context::Context;
use crate::page::{orders_view, page_length, page_number, page_offset, Order, OrderView, PageRequest, PageResult};
use crate::pg_schema::{
    condition_of, count_statement, delete_statement, insert_statement, query_columns,
    select_statement, update_statement, PgSchema,
};
use crate::sync::context_for;
use crate::table::{TableSchema, TableView};
use crate::text::views;
use crate::value::{bound_values, pairs_view, Pair, PairView, Query, QueryView, ValueView};

verus! {

/// The dialect for a default namespace.
pub fn new(default_sechma: String) -> (r: PgSchema)
    ensures
        r.ctx@ == context_for(default_sechma@),
{
    PgSchema::new(Context::new(default_sechma))
}

/// A condition that may be missing, with one more joined by `and`.
fn and_condition(wh: Option<Where>, cond: Condition) -> (r: Option<Where>)
    ensures
        condition_of(r) == joined_and(condition_of(wh), Some(cond@)),
{
    match wh {
        Some(w) => Some(w.and(cond)),
        None => Some(Where::new(cond)),
    }
}

/// A condition that may be missing, with one more joined by `or`.
fn or_condition(wh: Option<Where>, cond: Condition) -> (r: Option<Where>)
    ensures
        condition_of(r) == joined_or(condition_of(wh), Some(cond@)),
{
    match wh {
        Some(w) => Some(w.or(cond)),
        None => Some(Where::new(cond)),
    }
}

/// Two conditions that may be missing, joined by `and`.
fn and_where(wh: Option<Where>, more: Where) -> (r: Option<Where>)
    ensures
        condition_of(r) == joined_and(condition_of(wh), more@),
{
    match wh {
        Some(w) => Some(w.and(more)),
        None => Some(more),
    }
}

/// Two conditions that may be missing, joined by `or`.
fn or_where(wh: Option<Where>, more: Where) -> (r: Option<Where>)
    ensures
        condition_of(r) == joined_or(condition_of(wh), more@),
{
    match wh {
        Some(w) => Some(w.or(more)),
        None => Some(more),
    }
}

fn copy_where(wh: &Option<Where>) -> (r: Option<Where>)
    ensures
        condition_of(r) == condition_of(*wh),
{
    match wh {
        Some(w) => Some(w.clone()),
        None => None,
    }
}

fn bind_where(wh: &Option<Where>, query: Query) -> (r: Query)
    ensures
        r@.sql == query@.sql,
        r@.args == query@.args + where_bound(condition_of(*wh)),
{
    match wh {
        Some(w) => w.bind_to_query(query),
        None => {
            assert(query@.args + where_bound(condition_of(*wh)) =~= query@.args);
            query
        },
    }
}

/// Whether the placeholders of a condition can be numbered from `first` on.
fn where_fits(wh: &Option<Where>, first: usize) -> (r: bool)
    ensures
        r == (first + where_slots(condition_of(*wh)) <= usize::MAX),
{
    match wh {
        Some(w) => w.next_index(first).is_some(),
        None => true,
    }
}

/// The names of the columns of some pairs.
pub open spec fn pair_names(pairs: Seq<PairView>) -> Seq<Seq<char>> {
    pairs.map_values(|p: PairView| p.name)
}

/// The values that the first `n` pairs bind, one after another.
pub open spec fn pairs_bound(pairs: Seq<PairView>, n: int) -> Seq<ValueView>
    decreases n,
{
    if n <= 0 || n > pairs.len() {
        Seq::empty()
    } else {
        pairs_bound(pairs, n - 1) + bound_values(pairs[n - 1].value)
    }
}

fn names_of(pairs: &Vec<Pair>) -> (r: Vec<String>)
    ensures
        views(r@) == pair_names(pairs_view(pairs@)),
{
    let ghost all = pair_names(pairs_view(pairs@));
    let mut out: Vec<String> = Vec::new();
    let mut i: usize = 0;
    while i < pairs.len()
        invariant
            i <= pairs.len(),
            all == pair_names(pairs_view(pairs@)),
            views(out@) == all.take(i as int),
        decreases pairs.len() - i,
    {
        let ghost before = out@;
        let name = pairs[i].name.clone();
        out.push(name);
        proof {
            assert(views(out@) =~= views(before).push(name@));
            assert(views(out@) =~= all.take(i + 1));
        }
        i += 1;
    }
    assert(all.take(pairs.len() as int) =~= all);
    out
}

fn bind_pairs(pairs: &Vec<Pair>, query: Query) -> (r: Query)
    ensures
        r@.sql == query@.sql,
        r@.args == query@.args + pairs_bound(pairs_view(pairs@), pairs@.len() as int),
{
    let ghost all = pairs_view(pairs@);
    let mut qry = query;
    let mut i: usize = 0;
    proof {
        assert(qry@.args =~= query@.args + pairs_bound(all, 0));
    }
    while i < pairs.len()
        invariant
            i <= pairs.len(),
            all == pairs_view(pairs@),
            qry@.sql == query@.sql,
            qry@.args == query@.args + pairs_bound(all, i as int),
        decreases pairs.len() - i,
    {
        assert(all[i as int] == pairs@[i as int]@);
        qry = pairs[i].bind_to_query(qry);
        proof {
            assert(qry@.args =~= query@.args + pairs_bound(all, i + 1));
        }
        i += 1;
    }
    qry
}

fn statement(sql: String) -> (r: Query)
    ensures
        r@ == (QueryView { sql: sql@, args: Seq::empty() }),
{
    let q = Query { sql, args: Vec::new() };
    assert(q@.args =~= Seq::<ValueView>::empty());
    q
}

/// Builds the statement that deletes rows of a table.
#[derive(Debug)]
pub struct DeleteBuilder<'a> {
    table: TableSchema,
    default_schema: &'a str,
    wh: Option<Where>,
}

/// A delete builder as plain values.
pub struct DeleteView {
    pub table: TableView,
    pub default_schema: Seq<char>,
    pub wh: Option<CondView>,
}

impl<'a> View for DeleteBuilder<'a> {
    type V = DeleteView;

    closed spec fn view(&self) -> DeleteView {
        DeleteView {
            table: self.table@,
            default_schema: self.default_schema@,
            wh: condition_of(self.wh),
        }
    }
}

/// The statement of a delete builder, with its values.
pub open spec fn delete_query(b: DeleteView) -> QueryView {
    QueryView {
        sql: delete_statement(context_for(b.default_schema), b.table, b.wh),
        args: where_bound(b.wh),
    }
}

impl<'a> DeleteBuilder<'a> {
    /// A builder for `table`, without a condition.
    pub fn new(table: TableSchema) -> (r: Self)
        ensures
            r@ == (DeleteView { table: table@, default_schema: Seq::empty(), wh: None }),
    {
        let r = Self { table, default_schema: "", wh: None };
        proof {
            reveal_strlit("");
            assert(r@.default_schema =~= Seq::<char>::empty());
        }
        r
    }

    /// The builder with the default namespace `schema`.
    pub fn with_default_schema(self, schema: &'a str) -> (r: Self)
        ensures
            r@ == (DeleteView { default_schema: schema@, ..self@ }),
    {
        let mut b = self;
        b.default_schema = schema;
        b
    }

    /// Whether the placeholders of the statement can be numbered.
    pub fn fits(&self) -> (r: bool)
        ensures
            r == (1 + where_slots(self@.wh) <= usize::MAX),
    {
        where_fits(&self.wh, 1)
    }

    /// The statement as `build` gives it; none where the numbers of the
    /// placeholders cannot be held.
    pub fn try_build(&self) -> (r: Option<Query>)
        ensures
            match r {
                Some(q) => 1 + where_slots(self@.wh) <= usize::MAX && q@ == delete_query(self@),
                None => 1 + where_slots(self@.wh) > usize::MAX,
            },
    {
        if self.fits() {
            Some(self.build())
        } else {
            None
        }
    }

    /// The statement that deletes the rows that the condition selects,
    /// with the values of the condition.
    pub fn build(&self) -> (r: Query)
        requires
            1 + where_slots(self@.wh) <= usize::MAX,
        ensures
            r@ == delete_query(self@),
    {
        let schema = new(String::from_str(self.default_schema));
        let sql = schema.sql_delete(&self.table, copy_where(&self.wh));
        let q = bind_where(&self.wh, statement(sql));
        assert(q@.args =~= where_bound(self@.wh));
        q
    }
}

impl<'a> WhereAppend<Condition> for DeleteBuilder<'a> {
    fn and(self, cond: Condition) -> (r: Self)
        ensures
            r@ == (DeleteView { wh: joined_and(self@.wh, Some(cond@)), ..self@ }),
    {
        Self {
            table: self.table,
            default_schema: self.default_schema,
            wh: and_condition(self.wh, cond),
        }
    }

    fn or(self, cond: Condition) -> (r: Self)
        ensures
            r@ == (DeleteView { wh: joined_or(self@.wh, Some(cond@)), ..self@ }),
    {
        Self {
            table: self.table,
            default_schema: self.default_schema,
            wh: or_condition(self.wh, cond),
        }
    }
}

impl<'a> WhereAppend<Where> for DeleteBuilder<'a> {
    fn and(self, wh: Where) -> (r: Self)
        ensures
            r@ == (DeleteView { wh: joined_and(self@.wh, wh@), ..self@ }),
    {
        Self { table: self.table, default_schema: self.default_schema, wh: and_where(self.wh, wh) }
    }

    fn or(self, wh: Where) -> (r: Self)
        ensures
            r@ == (DeleteView { wh: joined_or(self@.wh, wh@), ..self@ }),
    {
        Self { table: self.table, default_schema: self.default_schema, wh: or_where(self.wh, wh) }
    }
}

/// Builds the statement that inserts a row into a table.
#[derive(Debug)]
pub struct InsertBuilder<'a> {
    table: TableSchema,
    default_schema: &'a str,
    columns: Vec<Pair>,
}

/// An insert builder as plain values.
pub struct InsertView {
    pub table: TableView,
    pub default_schema: Seq<char>,
    pub columns: Seq<PairView>,
}

impl<'a> View for InsertBuilder<'a> {
    type V = InsertView;

    closed spec fn view(&self) -> InsertView {
        InsertView {
            table: self.table@,
            default_schema: self.default_schema@,
            columns: pairs_view(self.columns@),
        }
    }
}

/// The statement of an insert builder, with its values.
pub open spec fn insert_query(b: InsertView) -> QueryView {
    QueryView {
        sql: insert_statement(context_for(b.default_schema), b.table, pair_names(b.columns)),
        args: pairs_bound(b.columns, b.columns.len() as int),
    }
}

impl<'a> InsertBuilder<'a> {
    /// A builder for `table`, without columns.
    pub fn new(table: TableSchema) -> (r: Self)
        ensures
            r@ == (InsertView {
                table: table@,
                default_schema: Seq::empty(),
                columns: Seq::empty(),
            }),
    {
        let r = Self { table, default_schema: "", columns: Vec::new() };
        proof {
            reveal_strlit("");
            assert(r@.default_schema =~= Seq::<char>::empty());
            assert(r@.columns =~= Seq::<PairView>::empty());
        }
        r
    }

    /// The builder with the default namespace `schema`.
    pub fn with_default_schema(self, schema: &'a str) -> (r: Self)
        ensures
            r@ == (InsertView { default_schema: schema@, ..self@ }),
    {
        let mut b = self;
        b.default_schema = schema;
        b
    }

    /// Adds a column and the value for it.
    pub fn add_column(&mut self, pair: Pair)
        ensures
            final(self)@ == (InsertView {
                columns: old(self)@.columns.push(pair@),
                ..old(self)@
            }),
    {
        self.columns.push(pair);
        assert(pairs_view(self.columns@) =~= pairs_view(old(self).columns@).push(pair@));
    }

    /// The statement that inserts the row, with the values of its
    /// columns in their order.
    pub fn build(&self) -> (r: Query)
        ensures
            r@ == insert_query(self@),
    {
        let schema = new(String::from_str(self.default_schema));
        let cols = names_of(&self.columns);
        let sql = schema.sql_insert_columns(&self.table, &cols);
        let q = bind_pairs(&self.columns, statement(sql));
        assert(q@.args =~= pairs_bound(self@.columns, self@.columns.len() as int));
        q
    }
}

/// Builds the statement that updates rows of a table.
#[derive(Debug)]
pub struct UpdateBuilder<'a> {
    table: TableSchema,
    default_schema: &'a str,
    columns: Vec<Pair>,
    wh: Option<Where>,
}

/// An update builder as plain values.
pub struct UpdateView {
    pub table: TableView,
    pub default_schema: Seq<char>,
    pub columns: Seq<PairView>,
    pub wh: Option<CondView>,
}

impl<'a> View for UpdateBuilder<'a> {
    type V = UpdateView;

    closed spec fn view(&self) -> UpdateView {
        UpdateView {
            table: self.table@,
            default_schema: self.default_schema@,
            columns: pairs_view(self.columns@),
            wh: condition_of(self.wh),
        }
    }
}

/// The statement of an update builder, with its values: those of the
/// columns first, then those of the condition, as the placeholders are
/// numbered.
pub open spec fn update_query(b: UpdateView) -> QueryView {
    QueryView {
        sql: update_statement(
            context_for(b.default_schema),
            b.table,
            pair_names(b.columns),
            b.wh,
        ),
        args: pairs_bound(b.columns, b.columns.len() as int) + where_bound(b.wh),
    }
}

impl<'a> UpdateBuilder<'a> {
    /// A builder for `table`, without columns or condition.
    pub fn new(table: TableSchema) -> (r: Self)
        ensures
            r@ == (UpdateView {
                table: table@,
                default_schema: Seq::empty(),
                columns: Seq::empty(),
                wh: None,
            }),
    {
        let r = Self { table, default_schema: "", columns: Vec::new(), wh: None };
        proof {
            reveal_strlit("");
            assert(r@.default_schema =~= Seq::<char>::empty());
            assert(r@.columns =~= Seq::<PairView>::empty());
        }
        r
    }

    /// The builder with the default namespace `schema`.
    pub fn with_default_schema(self, schema: &'a str) -> (r: Self)
        ensures
            r@ == (UpdateView { default_schema: schema@, ..self@ }),
    {
        let mut b = self;
        b.default_schema = schema;
        b
    }

    /// The builder with one more column to set.
    pub fn set_column(self, pair: Pair) -> (r: Self)
        ensures
            r@ == (UpdateView { columns: self@.columns.push(pair@), ..self@ }),
    {
        let mut b = self;
        b.columns.push(pair);
        assert(pairs_view(b.columns@) =~= pairs_view(self.columns@).push(pair@));
        b
    }

    /// Whether the placeholders of the statement can be numbered.
    pub fn fits(&self) -> (r: bool)
        ensures
            r == (self@.columns.len() + 1 + where_slots(self@.wh) <= usize::MAX),
    {
        if self.columns.len() == usize::MAX {
            return false;
        }
        where_fits(&self.wh, self.columns.len() + 1)
    }

    /// The statement as `build` gives it; none where the numbers of the
    /// placeholders cannot be held.
    pub fn try_build(&self) -> (r: Option<Query>)
        ensures
            match r {
                Some(q) => self@.columns.len() + 1 + where_slots(self@.wh) <= usize::MAX && q@
                    == update_query(self@),
                None => self@.columns.len() + 1 + where_slots(self@.wh) > usize::MAX,
            },
    {
        if self.fits() {
            Some(self.build())
        } else {
            None
        }
    }

    /// The statement that sets the columns of the rows that the
    /// condition selects, with the values for its placeholders.
    pub fn build(&self) -> (r: Query)
        requires
            self@.columns.len() + 1 + where_slots(self@.wh) <= usize::MAX,
        ensures
            r@ == update_query(self@),
    {
        let schema = new(String::from_str(self.default_schema));
        let cols = names_of(&self.columns);
        let sql = schema.sql_update_columns(&self.table, &cols, copy_where(&self.wh));
        let with_columns = bind_pairs(&self.columns, statement(sql));
        let q = bind_where(&self.wh, with_columns);
        assert(q@.args =~= pairs_bound(self@.columns, self@.columns.len() as int) + where_bound(
            self@.wh,
        ));
        q
    }
}

impl<'a> WhereAppend<Condition> for UpdateBuilder<'a> {
    fn and(self, cond: Condition) -> (r: Self)
        ensures
            r@ == (UpdateView { wh: joined_and(self@.wh, Some(cond@)), ..self@ }),
    {
        Self {
            table: self.table,
            default_schema: self.default_schema,
            columns: self.columns,
            wh: and_condition(self.wh, cond),
        }
    }

    fn or(self, cond: Condition) -> (r: Self)
        ensures
            r@ == (UpdateView { wh: joined_or(self@.wh, Some(cond@)), ..self@ }),
    {
        Self {
            table: self.table,
            default_schema: self.default_schema,
            columns: self.columns,
            wh: or_condition(self.wh, cond),
        }
    }
}

impl<'a> WhereAppend<Where> for UpdateBuilder<'a> {
    fn and(self, wh: Where) -> (r: Self)
        ensures
            r@ == (UpdateView { wh: joined_and(self@.wh, wh@), ..self@ }),
    {
        Self {
            table: self.table,
            default_schema: self.default_schema,
            columns: self.columns,
            wh: and_where(self.wh, wh),
        }
    }

    fn or(self, wh: Where) -> (r: Self)
        ensures
            r@ == (UpdateView { wh: joined_or(self@.wh, wh@), ..self@ }),
    {
        Self {
            table: self.table,
            default_schema: self.default_schema,
            columns: self.columns,
            wh: or_where(self.wh, wh),
        }
    }
}

/// Builds the statements that read rows of a table.
#[derive(Debug)]
pub struct SelectBuilder<'a> {
    table: TableSchema,
    default_schema: &'a str,
    wh: Option<Where>,
    orders: Vec<Order>,
}

/// A select builder as plain values.
pub struct SelectView {
    pub table: TableView,
    pub default_schema: Seq<char>,
    pub wh: Option<CondView>,
    pub orders: Seq<OrderView>,
}

impl<'a> View for SelectBuilder<'a> {
    type V = SelectView;

    closed spec fn view(&self) -> SelectView {
        SelectView {
            table: self.table@,
            default_schema: self.default_schema@,
            wh: condition_of(self.wh),
            orders: orders_view(self.orders@),
        }
    }
}

/// The statement that selects the columns `cols`, with the values of
/// the condition.
pub open spec fn select_query(
    b: SelectView,
    cols: Seq<Seq<char>>,
    pg: Option<crate::page::PageRequestView>,
) -> QueryView {
    QueryView {
        sql: select_statement(context_for(b.default_schema), b.table, cols, b.wh, b.orders, pg),
        args: where_bound(b.wh),
    }
}

/// The statement that counts the rows, with the values of the condition.
pub open spec fn count_query(b: SelectView) -> QueryView {
    QueryView {
        sql: count_statement(context_for(b.default_schema), b.table, b.wh),
        args: where_bound(b.wh),
    }
}

impl<'a> SelectBuilder<'a> {
    /// A builder for `table`, without condition or ordering.
    pub fn new(table: TableSchema) -> (r: Self)
        ensures
            r@ == (SelectView {
                table: table@,
                default_schema: Seq::empty(),
                wh: None,
                orders: Seq::empty(),
            }),
    {
        let r = Self { table, default_schema: "", wh: None, orders: Vec::new() };
        proof {
            reveal_strlit("");
            assert(r@.default_schema =~= Seq::<char>::empty());
            assert(r@.orders =~= Seq::<OrderView>::empty());
        }
        r
    }

    /// The builder with the default namespace `schema`.
    pub fn with_default_schema(self, schema: &'a str) -> (r: Self)
        ensures
            r@ == (SelectView { default_schema: schema@, ..self@ }),
    {
        let mut b = self;
        b.default_schema = schema;
        b
    }

    /// The builder with one more field to order by.
    pub fn order_by(self, item: Order) -> (r: Self)
        ensures
            r@ == (SelectView { orders: self@.orders.push(item@), ..self@ }),
    {
        let mut b = self;
        b.orders.push(item);
        assert(orders_view(b.orders@) =~= orders_view(self.orders@).push(item@));
        b
    }

    /// Whether the placeholders of the statements can be numbered.
    pub fn fits(&self) -> (r: bool)
        ensures
            r == (1 + where_slots(self@.wh) <= usize::MAX),
    {
        where_fits(&self.wh, 1)
    }

    /// The statement as `generate_query_as` gives it; none where the
    /// numbers of the placeholders cannot be held.
    pub fn try_generate_query_as(&self) -> (r: Option<Query>)
        ensures
            match r {
                Some(q) => 1 + where_slots(self@.wh) <= usize::MAX && q@ == select_query(
                    self@,
                    query_columns(self@.table.columns),
                    None,
                ),
                None => 1 + where_slots(self@.wh) > usize::MAX,
            },
    {
        if self.fits() {
            Some(self.generate_query_as())
        } else {
            None
        }
    }

    /// The statement that selects all columns of the rows that the
    /// condition selects.
    pub fn generate_query_as(&self) -> (r: Query)
        requires
            1 + where_slots(self@.wh) <= usize::MAX,
        ensures
            r@ == select_query(self@, query_columns(self@.table.columns), None),
    {
        let schema = new(String::from_str(self.default_schema));
        let sql = schema.sql_select(&self.table, copy_where(&self.wh), &self.orders, None);
        let q = bind_where(&self.wh, statement(sql));
        assert(q@.args =~= where_bound(self@.wh));
        q
    }

    /// The statement that selects one page of the rows.
    pub fn generate_page_query_as(&self, pg: &PageRequest) -> (r: Query)
        requires
            1 + where_slots(self@.wh) <= usize::MAX,
            page_offset(pg@) <= usize::MAX,
        ensures
            r@ == select_query(self@, query_columns(self@.table.columns), Some(pg@)),
    {
        let schema = new(String::from_str(self.default_schema));
        let sql = schema.sql_select(&self.table, copy_where(&self.wh), &self.orders, Some(pg));
        let q = bind_where(&self.wh, statement(sql));
        assert(q@.args =~= where_bound(self@.wh));
        q
    }

    /// The statement that selects the one column `field`.
    pub fn generate_query_scalar(&self, field: &str) -> (r: Query)
        requires
            1 + where_slots(self@.wh) <= usize::MAX,
        ensures
            r@ == select_query(self@, seq![field@], None),
    {
        let schema = new(String::from_str(self.default_schema));
        let mut cols: Vec<String> = Vec::new();
        cols.push(String::from_str(field));
        assert(views(cols@) =~= seq![field@]);
        let sql = schema.sql_select_columns(
            &self.table,
            &cols,
            copy_where(&self.wh),
            &self.orders,
            None,
        );
        let q = bind_where(&self.wh, statement(sql));
        assert(q@.args =~= where_bound(self@.wh));
        q
    }

    /// The statement that selects one page of the one column `field`.
    pub fn generate_query_page_scalar(&self, field: &str, pg: &PageRequest) -> (r: Query)
        requires
            1 + where_slots(self@.wh) <= usize::MAX,
            page_offset(pg@) <= usize::MAX,
        ensures
            r@ == select_query(self@, seq![field@], Some(pg@)),
    {
        let schema = new(String::from_str(self.default_schema));
        let mut cols: Vec<String> = Vec::new();
        cols.push(String::from_str(field));
        assert(views(cols@) =~= seq![field@]);
        let sql = schema.sql_select_columns(
            &self.table,
            &cols,
            copy_where(&self.wh),
            &self.orders,
            Some(pg),
        );
        let q = bind_where(&self.wh, statement(sql));
        assert(q@.args =~= where_bound(self@.wh));
        q
    }

    /// The statement that counts the rows that the condition selects.
    pub fn count(&self) -> (r: Query)
        requires
            1 + where_slots(self@.wh) <= usize::MAX,
        ensures
            r@ == count_query(self@),
    {
        let schema = new(String::from_str(self.default_schema));
        let sql = schema.sql_count(&self.table, copy_where(&self.wh));
        let q = bind_where(&self.wh, statement(sql));
        assert(q@.args =~= where_bound(self@.wh));
        q
    }
}

impl<'a> WhereAppend<Condition> for SelectBuilder<'a> {
    fn and(self, cond: Condition) -> (r: Self)
        ensures
            r@ == (SelectView { wh: joined_and(self@.wh, Some(cond@)), ..self@ }),
    {
        Self {
            table: self.table,
            default_schema: self.default_schema,
            wh: and_condition(self.wh, cond),
            orders: self.orders,
        }
    }

    fn or(self, cond: Condition) -> (r: Self)
        ensures
            r@ == (SelectView { wh: joined_or(self@.wh, Some(cond@)), ..self@ }),
    {
        Self {
            table: self.table,
            default_schema: self.default_schema,
            wh: or_condition(self.wh, cond),
            orders: self.orders,
        }
    }
}

impl<'a> WhereAppend<Where> for SelectBuilder<'a> {
    fn and(self, wh: Where) -> (r: Self)
        ensures
            r@ == (SelectView { wh: joined_and(self@.wh, wh@), ..self@ }),
    {
        Self {
            table: self.table,
            default_schema: self.default_schema,
            wh: and_where(self.wh, wh),
            orders: self.orders,
        }
    }

    fn or(self, wh: Where) -> (r: Self)
        ensures
            r@ == (SelectView { wh: joined_or(self@.wh, wh@), ..self@ }),
    {
        Self {
            table: self.table,
            default_schema: self.default_schema,
            wh: or_where(self.wh, wh),
            orders: self.orders,
        }
    }
}

/// The page of a result before its rows are read: the number and the
/// length of the page as the request gives them, and nothing counted yet.
pub fn empty_page<O: std::marker::Send + Unpin>(page: &PageRequest) -> (r: PageResult<O>)
    ensures
        r.page_no == page_number(page@),
        r.page_size == page_length(page@),
        r.total == 0,
        r.page_count == 0,
        r.records@.len() == 0,
{
    PageResult {
        records: Vec::new(),
        page_count: 0,
        total: 0,
        page_no: page.get_page_no(),
        page_size: page.get_page_size(),
    }
}

} // verus!
