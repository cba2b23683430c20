//! What a dialect offers: its quoter and the statements it writes.
//!
//! Reconciliation and the builders ask a dialect for every statement
//! and never write one themselves.

use vstd::prelude::*;
use vstd::string::*;
use crate::column::{column_name, Column};
use crate::context::{
    add_column_statement, alter_statements, create_index_statement, drop_column_statement,
    drop_index_statement, drop_table_statement, lacks_length, same_table_name, table_ref,
    with_default_schema, ContextView,
};
use crate::error::SchemaError;
use crate::index::Index;
use crate::page::{orders_view, page_offset, Order, PageRequest};
use crate::pg_schema::{
    column_names, condition_of, count_statement, create_table_statement, delete_statement,
    insert_statement, page_of, query_columns, select_statement, table_index_statements,
    update_statement, PgSchema,
};
use crate::quote::Quoter;
use crate::condition::{where_slots, Where};
use crate::table::{in_namespace, qualified_name, TableSchema};
use crate::text::views;

verus! {

/// A dialect of SQL.
pub trait Schema {
    /// The default namespace and the quoter that the statements of the
    /// dialect are written with.
    spec fn context(&self) -> ContextView;

    /// The quoter of the dialect.
    fn quoter(&self) -> (r: Quoter)
        ensures
            r@ == self.context().quoter,
    ;

    /// The name of `table` with its namespace, or the default one.
    fn table_name_with_schema(&self, table: &TableSchema) -> (r: String)
        ensures
            r@ == with_default_schema(self.context(), qualified_name(table@)),
    ;

    /// Whether the two tables have the same name.
    fn is_table_name_equal(&self, table1: &TableSchema, table2: &TableSchema) -> (r: bool)
        ensures
            r == same_table_name(self.context(), qualified_name(table1@), qualified_name(table2@)),
    ;

    /// The statement that creates `table`; `EmptyTableDefinition` for a
    /// table without columns.
    fn sql_create_table(&self, table: &TableSchema) -> (r: Result<Vec<String>, SchemaError>)
        ensures
            match r {
                Ok(sqls) => table@.columns.len() > 0 && views(sqls@) == seq![
                    create_table_statement(self.context(), table@),
                ],
                Err(e) => table@.columns.len() == 0 && (e matches SchemaError::EmptyTableDefinition(
                    name,
                ) && name@ == table@.name),
            },
    ;

    /// The statement that drops `table`, if it is there.
    fn sql_drop_table(&self, table: &TableSchema) -> (r: String)
        ensures
            r@ == drop_table_statement(self.context(), qualified_name(table@)),
    ;

    /// The statement that creates `index` on `table`; none for an
    /// index without columns.
    fn sql_create_index(&self, table: &TableSchema, index: &Index) -> (r: Option<String>)
        ensures
            match r {
                Some(sql) => index@.columns.len() > 0 && sql@ == create_index_statement(
                    self.context(),
                    qualified_name(table@),
                    index@,
                ),
                None => index@.columns.len() == 0,
            },
    ;

    /// The statements that create the indexes of `table`.
    fn sql_create_indexes(&self, table: &TableSchema) -> (r: Vec<String>)
        ensures
            views(r@) == table_index_statements(self.context(), table@),
    ;

    /// The statement that drops `index` of `table`, if it is there;
    /// none for an index without columns.
    fn sql_drop_index(&self, table: &TableSchema, index: &Index) -> (r: Option<String>)
        ensures
            match r {
                Some(sql) => index@.columns.len() > 0 && sql@ == drop_index_statement(
                    self.context(),
                    in_namespace(table@.schema, index@.name),
                ),
                None => index@.columns.len() == 0,
            },
    ;

    /// The statement that adds the column `col` to `table`.
    fn sql_add_column(&self, table: &TableSchema, col: &Column) -> (r: String)
        ensures
            r@ == add_column_statement(self.context(), qualified_name(table@), col@, None),
    ;

    /// The statements that turn the live column `old` of `table` into
    /// the declared column `new`; `MissingLength` where only the length
    /// is to change and the new type has none.
    fn sql_alter_column(&self, table: &TableSchema, old: &Column, new: &Column) -> (r: Result<
        Vec<String>,
        SchemaError,
    >)
        ensures
            match r {
                Ok(sqls) => !lacks_length(old@, new@) && views(sqls@) == alter_statements(
                    self.context(),
                    qualified_name(table@),
                    old@,
                    new@,
                    new@.autoincr,
                ),
                Err(e) => lacks_length(old@, new@) && (e matches SchemaError::MissingLength {
                    column,
                    table: name,
                } && column@ == column_name(old@) && name@ == table_ref(
                    self.context(),
                    qualified_name(table@),
                )),
            },
    ;

    /// The statement that drops the column `col` of `table`, if it is there.
    fn sql_drop_column(&self, table: &TableSchema, col: &Column) -> (r: String)
        ensures
            r@ == drop_column_statement(
                self.context(),
                qualified_name(table@),
                column_name(col@),
            ),
    ;

    /// The statement that inserts a row with all columns of `table`.
    fn sql_insert(&self, table: &TableSchema) -> (r: String)
        ensures
            r@ == insert_statement(self.context(), table@, column_names(table@.columns)),
    ;

    /// The statement that inserts a row with the columns `cols`.
    fn sql_insert_columns(&self, table: &TableSchema, cols: &Vec<String>) -> (r: String)
        ensures
            r@ == insert_statement(self.context(), table@, views(cols@)),
    ;

    /// The statement that updates the columns `cols` of the rows that
    /// `wh` selects.
    fn sql_update_columns(&self, table: &TableSchema, cols: &Vec<String>, wh: Option<Where>) -> (r:
        String)
        requires
            cols.len() + 1 + where_slots(condition_of(wh)) <= usize::MAX,
        ensures
            r@ == update_statement(self.context(), table@, views(cols@), condition_of(wh)),
    ;

    /// The statement that deletes the rows that `wh` selects.
    fn sql_delete(&self, table: &TableSchema, wh: Option<Where>) -> (r: String)
        requires
            1 + where_slots(condition_of(wh)) <= usize::MAX,
        ensures
            r@ == delete_statement(self.context(), table@, condition_of(wh)),
    ;

    /// The statement that counts the rows that `wh` selects.
    fn sql_count(&self, table: &TableSchema, wh: Option<Where>) -> (r: String)
        requires
            1 + where_slots(condition_of(wh)) <= usize::MAX,
        ensures
            r@ == count_statement(self.context(), table@, condition_of(wh)),
    ;

    /// The statement that selects all columns of `table`.
    fn sql_select(
        &self,
        table: &TableSchema,
        wh: Option<Where>,
        orders: &Vec<Order>,
        pg: Option<&PageRequest>,
    ) -> (r: String)
        requires
            1 + where_slots(condition_of(wh)) <= usize::MAX,
            pg is Some ==> page_offset(pg->0@) <= usize::MAX,
        ensures
            r@ == select_statement(
                self.context(),
                table@,
                query_columns(table@.columns),
                condition_of(wh),
                orders_view(orders@),
                page_of(pg),
            ),
    ;

    /// The statement that selects the columns `columns` of `table`.
    fn sql_select_columns(
        &self,
        table: &TableSchema,
        columns: &Vec<String>,
        wh: Option<Where>,
        orders: &Vec<Order>,
        pg: Option<&PageRequest>,
    ) -> (r: String)
        requires
            1 + where_slots(condition_of(wh)) <= usize::MAX,
            pg is Some ==> page_offset(pg->0@) <= usize::MAX,
        ensures
            r@ == select_statement(
                self.context(),
                table@,
                views(columns@),
                condition_of(wh),
                orders_view(orders@),
                page_of(pg),
            ),
    ;
}

impl Schema for PgSchema {
    open spec fn context(&self) -> ContextView {
        self.ctx@
    }

    fn quoter(&self) -> (r: Quoter) {
        PgSchema::quoter(self)
    }

    fn table_name_with_schema(&self, table: &TableSchema) -> (r: String) {
        PgSchema::table_name_with_schema(self, table)
    }

    fn is_table_name_equal(&self, table1: &TableSchema, table2: &TableSchema) -> (r: bool) {
        PgSchema::is_table_name_equal(self, table1, table2)
    }

    fn sql_create_table(&self, table: &TableSchema) -> (r: Result<Vec<String>, SchemaError>) {
        PgSchema::sql_create_table(self, table)
    }

    fn sql_drop_table(&self, table: &TableSchema) -> (r: String) {
        PgSchema::sql_drop_table(self, table)
    }

    fn sql_create_index(&self, table: &TableSchema, index: &Index) -> (r: Option<String>) {
        PgSchema::sql_create_index(self, table, index)
    }

    fn sql_create_indexes(&self, table: &TableSchema) -> (r: Vec<String>) {
        PgSchema::sql_create_indexes(self, table)
    }

    fn sql_drop_index(&self, table: &TableSchema, index: &Index) -> (r: Option<String>) {
        PgSchema::sql_drop_index(self, table, index)
    }

    fn sql_add_column(&self, table: &TableSchema, col: &Column) -> (r: String) {
        PgSchema::sql_add_column(self, table, col)
    }

    fn sql_alter_column(&self, table: &TableSchema, old: &Column, new: &Column) -> (r: Result<
        Vec<String>,
        SchemaError,
    >) {
        PgSchema::sql_alter_column(self, table, old, new)
    }

    fn sql_drop_column(&self, table: &TableSchema, col: &Column) -> (r: String) {
        PgSchema::sql_drop_column(self, table, col)
    }

    fn sql_insert(&self, table: &TableSchema) -> (r: String) {
        PgSchema::sql_insert(self, table)
    }

    fn sql_insert_columns(&self, table: &TableSchema, cols: &Vec<String>) -> (r: String) {
        PgSchema::sql_insert_columns(self, table, cols)
    }

    fn sql_update_columns(&self, table: &TableSchema, cols: &Vec<String>, wh: Option<Where>) -> (r:
        String) {
        PgSchema::sql_update_columns(self, table, cols, wh)
    }

    fn sql_delete(&self, table: &TableSchema, wh: Option<Where>) -> (r: String) {
        PgSchema::sql_delete(self, table, wh)
    }

    fn sql_count(&self, table: &TableSchema, wh: Option<Where>) -> (r: String) {
        PgSchema::sql_count(self, table, wh)
    }

    fn sql_select(
        &self,
        table: &TableSchema,
        wh: Option<Where>,
        orders: &Vec<Order>,
        pg: Option<&PageRequest>,
    ) -> (r: String) {
        PgSchema::sql_select(self, table, wh, orders, pg)
    }

    fn sql_select_columns(
        &self,
        table: &TableSchema,
        columns: &Vec<String>,
        wh: Option<Where>,
        orders: &Vec<Order>,
        pg: Option<&PageRequest>,
    ) -> (r: String) {
        PgSchema::sql_select_columns(self, table, columns, wh, orders, pg)
    }
}

} // verus!
