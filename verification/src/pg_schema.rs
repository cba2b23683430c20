//! The statements of the PostgreSQL dialect: those that define tables,
//! and those that read and change rows.

use vstd::prelude::*;
use vstd::string::*;
use crate::column::{column_name, columns_view, query_column_name, Column, ColumnView};
use crate::condition::{
    placeholder, placeholder_list, placeholder_text, rendered_where, where_slots, CondView, Where,
};
use crate::context::{
    add_column_statement, alter_statements, column_definition, create_index_statement,
    drop_column_statement, drop_index_statement, drop_table_statement, lacks_length,
    push_statement, same_table_name, table_ref, with_default_schema, Context, ContextView,
};
use crate::error::SchemaError;
use crate::index::{indexes_view, Index, IndexView};
use crate::postgres::convert_sql_type;
use crate::page::{
    order_word, orders_view, page_length, page_number, page_offset, Order, OrderView, PageRequest,
    PageRequestView,
};
use crate::quote::{quoted, Quoter, QuoterView};
use crate::table::{in_namespace, qualified_name, TableSchema, TableView};
use crate::text::{join, join_strings, nat_decimal, usize_to_string, views};

verus! {

/// The names of the columns of the primary key, in the order of the columns.
pub open spec fn primary_keys(columns: Seq<ColumnView>) -> Seq<Seq<char>>
    decreases columns.len(),
{
    if columns.len() == 0 {
        Seq::empty()
    } else if columns.last().pk {
        primary_keys(columns.drop_last()).push(column_name(columns.last()))
    } else {
        primary_keys(columns.drop_last())
    }
}

/// The definitions of the columns of a table.
pub open spec fn column_definitions(
    ctx: ContextView,
    columns: Seq<ColumnView>,
    inline_pk: bool,
) -> Seq<Seq<char>> {
    columns.map_values(|c: ColumnView| column_definition(ctx, c, inline_pk, None))
}

/// The clause for a primary key of more than one column.
pub open spec fn composite_key_clause(keys: Seq<Seq<char>>) -> Seq<char> {
    if keys.len() > 1 {
        ", PRIMARY KEY ("@ + join(keys, ","@) + ")"@
    } else {
        Seq::empty()
    }
}

/// The statement that creates a table. A primary key of one column is
/// said in the definition of that column; one of several columns gets
/// a clause of its own behind the columns.
pub open spec fn create_table_statement(ctx: ContextView, t: TableView) -> Seq<char> {
    let keys = primary_keys(t.columns);
    "CREATE TABLE IF NOT EXISTS "@ + table_ref(ctx, qualified_name(t)) + " ("@ + join(
        column_definitions(ctx, t.columns, keys.len() == 1),
        ","@,
    ) + composite_key_clause(keys) + ")"@
}

/// The statements that create the indexes of a table, those without
/// columns left out.
pub open spec fn create_index_statements(
    ctx: ContextView,
    table_name: Seq<char>,
    indexes: Seq<IndexView>,
) -> Seq<Seq<char>>
    decreases indexes.len(),
{
    if indexes.len() == 0 {
        Seq::empty()
    } else {
        let before = create_index_statements(ctx, table_name, indexes.drop_last());
        if indexes.last().columns.len() > 0 {
            before.push(create_index_statement(ctx, table_name, indexes.last()))
        } else {
            before
        }
    }
}

/// The statements that create the indexes of a table.
pub open spec fn table_index_statements(ctx: ContextView, t: TableView) -> Seq<Seq<char>> {
    match t.indexes {
        Some(list) => create_index_statements(ctx, qualified_name(t), list),
        None => Seq::empty(),
    }
}

/// Each name quoted.
pub open spec fn quoted_names(q: QuoterView, names: Seq<Seq<char>>) -> Seq<Seq<char>> {
    names.map_values(|n: Seq<char>| quoted(q, n))
}

/// The statement that inserts a row with the columns `cols`, one
/// placeholder for each, numbered from one.
pub open spec fn insert_statement(ctx: ContextView, t: TableView, cols: Seq<Seq<char>>) -> Seq<char> {
    "insert into "@ + table_ref(ctx, qualified_name(t)) + " ("@ + join(
        quoted_names(ctx.quoter, cols),
        ","@,
    ) + ") values ("@ + join(placeholder_list(1, cols.len()), ","@) + ")"@
}

/// The assignments of an `update`: each column set to the placeholder
/// of its position, counted from one.
pub open spec fn assignments(q: QuoterView, cols: Seq<Seq<char>>) -> Seq<Seq<char>> {
    Seq::new(cols.len(), |i: int| quoted(q, cols[i]) + "="@ + placeholder(i + 1))
}

/// The condition of a statement, if it has one.
pub open spec fn condition_of(wh: Option<Where>) -> Option<CondView> {
    match wh {
        Some(w) => w@,
        None => None,
    }
}

/// The `where` part of a statement: empty where the condition renders
/// to nothing.
pub open spec fn where_clause(q: QuoterView, w: Option<CondView>, first: int) -> Seq<char> {
    let text = rendered_where(q, w, first);
    if text.len() > 0 {
        " where "@ + text
    } else {
        Seq::empty()
    }
}

/// The statement that updates the columns `cols`. The placeholders of
/// the condition go on where those of the columns end.
pub open spec fn update_statement(
    ctx: ContextView,
    t: TableView,
    cols: Seq<Seq<char>>,
    w: Option<CondView>,
) -> Seq<char> {
    "update "@ + table_ref(ctx, qualified_name(t)) + " set "@ + join(
        assignments(ctx.quoter, cols),
        ","@,
    ) + " "@ + where_clause(ctx.quoter, w, (cols.len() + 1) as int)
}

/// The statement that deletes rows.
pub open spec fn delete_statement(ctx: ContextView, t: TableView, w: Option<CondView>) -> Seq<char> {
    "delete from "@ + table_ref(ctx, qualified_name(t)) + " "@ + where_clause(ctx.quoter, w, 1)
}

/// The statement that counts rows.
pub open spec fn count_statement(ctx: ContextView, t: TableView, w: Option<CondView>) -> Seq<char> {
    "select count(0) as \"count\" from "@ + table_ref(ctx, qualified_name(t)) + " "@ + where_clause(
        ctx.quoter,
        w,
        1,
    )
}

/// The fields of an `order by` clause.
pub open spec fn order_items(q: QuoterView, orders: Seq<OrderView>) -> Seq<Seq<char>> {
    orders.map_values(|o: OrderView| quoted(q, o.field) + " "@ + order_word(o.order_type))
}

/// The `order by` part of a statement; empty without orderings.
pub open spec fn order_clause(q: QuoterView, orders: Seq<OrderView>) -> Seq<char> {
    if orders.len() > 0 {
        " order by "@ + join(order_items(q, orders), ", "@)
    } else {
        Seq::empty()
    }
}

/// The paging part of a statement; empty without a page request.
pub open spec fn page_clause(pg: Option<PageRequestView>) -> Seq<char> {
    match pg {
        Some(p) => "offset "@ + nat_decimal(page_offset(p) as nat) + " limit "@ + nat_decimal(
            page_length(p) as nat,
        ),
        None => Seq::empty(),
    }
}

/// The statement that selects the columns `cols`.
pub open spec fn select_statement(
    ctx: ContextView,
    t: TableView,
    cols: Seq<Seq<char>>,
    w: Option<CondView>,
    orders: Seq<OrderView>,
    pg: Option<PageRequestView>,
) -> Seq<char> {
    "select "@ + join(quoted_names(ctx.quoter, cols), ","@) + " from "@ + table_ref(
        ctx,
        qualified_name(t),
    ) + " "@ + where_clause(ctx.quoter, w, 1) + " "@ + order_clause(ctx.quoter, orders) + " "@
        + page_clause(pg)
}

/// The columns of a table as a query selects them.
pub open spec fn query_columns(columns: Seq<ColumnView>) -> Seq<Seq<char>> {
    columns.map_values(|c: ColumnView| query_column_name(c))
}

/// The names of the columns of a table in the database.
pub open spec fn column_names(columns: Seq<ColumnView>) -> Seq<Seq<char>> {
    columns.map_values(|c: ColumnView| column_name(c))
}

/// The page request behind an optional reference.
pub open spec fn page_of(pg: Option<&PageRequest>) -> Option<PageRequestView> {
    match pg {
        Some(p) => Some(p@),
        None => None,
    }
}

/// The statement that creates `table`; `EmptyTableDefinition` for a
/// table without columns.
pub fn sql_create_table(context: &Context, table: &TableSchema) -> (r: Result<
    Vec<String>,
    SchemaError,
>)
    ensures
        match r {
            Ok(sqls) => table@.columns.len() > 0 && views(sqls@) == seq![
                create_table_statement(context@, table@),
            ],
            Err(e) => table@.columns.len() == 0 && (e matches SchemaError::EmptyTableDefinition(
                name,
            ) && name@ == table@.name),
        },
{
    if table.columns.len() == 0 {
        return Err(SchemaError::EmptyTableDefinition(table.name.clone()));
    }
    let mut create_table = String::from_str("CREATE TABLE IF NOT EXISTS ");
    let table_name = context.table_name_with_schema(&table.name_with_schema());
    create_table.append(context.quote(&table_name).as_str());
    create_table.append(" (");
    let ghost columns = table@.columns;
    let mut pks: Vec<String> = Vec::new();
    let mut i: usize = 0;
    while i < table.columns.len()
        invariant
            i <= table.columns.len(),
            columns == columns_view(table.columns@),
            views(pks@) == primary_keys(columns.take(i as int)),
        decreases table.columns.len() - i,
    {
        proof {
            assert(columns.take(i + 1).drop_last() =~= columns.take(i as int));
            assert(columns.take(i + 1).last() == table.columns@[i as int]@);
        }
        if table.columns[i].pk {
            let ghost before = pks@;
            let name = table.columns[i].get_column_name();
            pks.push(name);
            assert(views(pks@) =~= views(before).push(name@));
        }
        i += 1;
    }
    assert(columns.take(table.columns.len() as int) =~= columns);
    let inline_pk = pks.len() == 1;
    let mut cols: Vec<String> = Vec::new();
    let mut j: usize = 0;
    while j < table.columns.len()
        invariant
            j <= table.columns.len(),
            columns == columns_view(table.columns@),
            views(cols@) == column_definitions(context@, columns, inline_pk).take(j as int),
        decreases table.columns.len() - j,
    {
        let ghost before = cols@;
        let col_def = context.sql_column(&table.columns[j], inline_pk, None, convert_sql_type);
        cols.push(col_def);
        proof {
            assert(views(cols@) =~= views(before).push(col_def@));
            assert(views(cols@) =~= column_definitions(context@, columns, inline_pk).take(j + 1));
        }
        j += 1;
    }
    assert(column_definitions(context@, columns, inline_pk).take(table.columns.len() as int)
        =~= column_definitions(context@, columns, inline_pk));
    create_table.append(join_strings(&cols, ",").as_str());
    if pks.len() > 1 {
        create_table.append(", PRIMARY KEY (");
        create_table.append(join_strings(&pks, ",").as_str());
        create_table.append(")");
    }
    create_table.append(")");
    assert(create_table@ =~= create_table_statement(context@, table@));
    let mut out: Vec<String> = Vec::new();
    push_statement(&mut out, create_table);
    assert(views(out@) =~= seq![create_table_statement(context@, table@)]);
    Ok(out)
}

fn quote_all(quoter: &Quoter, names: &Vec<String>) -> (r: Vec<String>)
    ensures
        views(r@) == quoted_names(quoter@, views(names@)),
{
    let ghost all = quoted_names(quoter@, views(names@));
    let mut out: Vec<String> = Vec::new();
    let mut i: usize = 0;
    while i < names.len()
        invariant
            i <= names.len(),
            all == quoted_names(quoter@, views(names@)),
            views(out@) == all.take(i as int),
        decreases names.len() - i,
    {
        let ghost before = out@;
        let item = quoter.quote(&names[i]);
        out.push(item);
        proof {
            assert(views(out@) =~= views(before).push(item@));
            assert(views(out@) =~= all.take(i + 1));
        }
        i += 1;
    }
    assert(all.take(names.len() as int) =~= all);
    out
}

fn where_part(wh: &Option<Where>, first: usize, quoter: &Quoter) -> (r: String)
    requires
        first + where_slots(condition_of(*wh)) <= usize::MAX,
    ensures
        r@ == where_clause(quoter@, condition_of(*wh), first as int),
{
    let mut where_str = String::new();
    if let Some(w) = wh {
        let (ws, _) = w.sql(first, quoter);
        if !ws.as_str().is_empty() {
            where_str.append(" where ");
            where_str.append(ws.as_str());
        }
    }
    assert(where_str@ =~= where_clause(quoter@, condition_of(*wh), first as int));
    where_str
}

/// The dialect of PostgreSQL.
#[derive(Debug)]
pub struct PgSchema {
    pub ctx: Context,
}

impl PgSchema {
    /// The dialect with the context `ctx`.
    pub fn new(ctx: Context) -> (r: Self)
        ensures
            r.ctx == ctx,
    {
        Self { ctx }
    }

    /// The quoter of the dialect.
    pub fn quoter(&self) -> (r: Quoter)
        ensures
            r@ == self.ctx@.quoter,
    {
        self.ctx.quoter()
    }

    /// The statement that creates `table`.
    pub fn sql_create_table(&self, table: &TableSchema) -> (r: Result<Vec<String>, SchemaError>)
        ensures
            match r {
                Ok(sqls) => table@.columns.len() > 0 && views(sqls@) == seq![
                    create_table_statement(self.ctx@, table@),
                ],
                Err(e) => table@.columns.len() == 0 && (e matches SchemaError::EmptyTableDefinition(
                    name,
                ) && name@ == table@.name),
            },
    {
        sql_create_table(&self.ctx, table)
    }

    /// The statement that drops `table`, if it is there.
    pub fn sql_drop_table(&self, table: &TableSchema) -> (r: String)
        ensures
            r@ == drop_table_statement(self.ctx@, qualified_name(table@)),
    {
        self.ctx.sql_drop_table(&table.name_with_schema())
    }

    /// The statement that drops `index` of `table`, if it is there;
    /// none for an index without columns.
    pub fn sql_drop_index(&self, table: &TableSchema, index: &Index) -> (r: Option<String>)
        ensures
            match r {
                Some(sql) => index@.columns.len() > 0 && sql@ == drop_index_statement(
                    self.ctx@,
                    in_namespace(table@.schema, index@.name),
                ),
                None => index@.columns.len() == 0,
            },
    {
        if index.columns.len() == 0 {
            return None;
        }
        Some(self.ctx.sql_drop_index(&table.index_name_with_schema(&index.name)))
    }

    /// The statement that creates `index` on `table`; none for an
    /// index without columns.
    pub fn sql_create_index(&self, table: &TableSchema, index: &Index) -> (r: Option<String>)
        ensures
            match r {
                Some(sql) => index@.columns.len() > 0 && sql@ == create_index_statement(
                    self.ctx@,
                    qualified_name(table@),
                    index@,
                ),
                None => index@.columns.len() == 0,
            },
    {
        self.ctx.sql_create_index(&table.name_with_schema(), index)
    }

    /// The statements that create the indexes of `table`.
    pub fn sql_create_indexes(&self, table: &TableSchema) -> (r: Vec<String>)
        ensures
            views(r@) == table_index_statements(self.ctx@, table@),
    {
        let mut sqls: Vec<String> = Vec::new();
        if let Some(indexes) = &table.indexes {
            let ghost all = indexes_view(indexes@);
            let mut i: usize = 0;
            while i < indexes.len()
                invariant
                    i <= indexes.len(),
                    all == indexes_view(indexes@),
                    views(sqls@) == create_index_statements(
                        self.ctx@,
                        qualified_name(table@),
                        all.take(i as int),
                    ),
                decreases indexes.len() - i,
            {
                proof {
                    assert(all.take(i + 1).drop_last() =~= all.take(i as int));
                    assert(all.take(i + 1).last() == indexes@[i as int]@);
                }
                if let Some(sql) = self.sql_create_index(table, &indexes[i]) {
                    push_statement(&mut sqls, sql);
                }
                i += 1;
            }
            assert(all.take(indexes.len() as int) =~= all);
        }
        sqls
    }

    /// The statement that adds the column `col` to `table`.
    pub fn sql_add_column(&self, table: &TableSchema, col: &Column) -> (r: String)
        ensures
            r@ == add_column_statement(self.ctx@, qualified_name(table@), col@, None),
    {
        self.ctx.sql_add_column(&table.name_with_schema(), col, None, convert_sql_type)
    }

    /// Whether the two tables have the same name.
    pub fn is_table_name_equal(&self, table1: &TableSchema, table2: &TableSchema) -> (r: bool)
        ensures
            r == same_table_name(self.ctx@, qualified_name(table1@), qualified_name(table2@)),
    {
        self.ctx.is_table_name_equal(&table1.name_with_schema(), &table2.name_with_schema())
    }

    /// The statements that turn the live column `old` of `table` into
    /// the declared column `new`. The default is left alone where the
    /// new column is numbered by the database.
    pub fn sql_alter_column(&self, table: &TableSchema, old: &Column, new: &Column) -> (r: Result<
        Vec<String>,
        SchemaError,
    >)
        ensures
            match r {
                Ok(sqls) => !lacks_length(old@, new@) && views(sqls@) == alter_statements(
                    self.ctx@,
                    qualified_name(table@),
                    old@,
                    new@,
                    new@.autoincr,
                ),
                Err(e) => lacks_length(old@, new@) && (e matches SchemaError::MissingLength {
                    column,
                    table: name,
                } && column@ == column_name(old@) && name@ == table_ref(
                    self.ctx@,
                    qualified_name(table@),
                )),
            },
    {
        let table_name = table.name_with_schema();
        self.ctx.sql_alter_column(&table_name, old, new, convert_sql_type, new.autoincr)
    }

    /// The statement that drops the column `col` of `table`, if it is there.
    pub fn sql_drop_column(&self, table: &TableSchema, col: &Column) -> (r: String)
        ensures
            r@ == drop_column_statement(self.ctx@, qualified_name(table@), column_name(col@)),
    {
        self.ctx.sql_drop_column(&table.name_with_schema(), &col.get_column_name())
    }

    /// The name of `table` with its namespace, or the default one.
    pub fn table_name_with_schema(&self, table: &TableSchema) -> (r: String)
        ensures
            r@ == with_default_schema(self.ctx@, qualified_name(table@)),
    {
        self.ctx.table_name_with_schema(&table.name_with_schema())
    }

    fn quoted_table(&self, table: &TableSchema) -> (r: String)
        ensures
            r@ == table_ref(self.ctx@, qualified_name(table@)),
    {
        self.ctx.quote(&self.table_name_with_schema(table))
    }

    /// The statement that inserts a row with all columns of `table`.
    pub fn sql_insert(&self, table: &TableSchema) -> (r: String)
        ensures
            r@ == insert_statement(self.ctx@, table@, column_names(table@.columns)),
    {
        let ghost all = column_names(table@.columns);
        let mut names: Vec<String> = Vec::new();
        let mut i: usize = 0;
        while i < table.columns.len()
            invariant
                i <= table.columns.len(),
                all == column_names(columns_view(table.columns@)),
                views(names@) == all.take(i as int),
            decreases table.columns.len() - i,
        {
            let ghost before = names@;
            let name = table.columns[i].get_column_name();
            names.push(name);
            proof {
                assert(views(names@) =~= views(before).push(name@));
                assert(views(names@) =~= all.take(i + 1));
            }
            i += 1;
        }
        assert(all.take(table.columns.len() as int) =~= all);
        self.sql_insert_columns(table, &names)
    }

    /// The statement that inserts a row with the columns `cols`.
    pub fn sql_insert_columns(&self, table: &TableSchema, cols: &Vec<String>) -> (r: String)
        ensures
            r@ == insert_statement(self.ctx@, table@, views(cols@)),
    {
        let quoter = self.quoter();
        let names = quote_all(&quoter, cols);
        let mut holders: Vec<String> = Vec::new();
        let mut n: usize = 0;
        while n < cols.len()
            invariant
                n <= cols.len(),
                views(holders@) == placeholder_list(1, n as nat),
            decreases cols.len() - n,
        {
            let ghost before = holders@;
            let item = placeholder_text(n + 1);
            holders.push(item);
            proof {
                assert(views(holders@) =~= views(before).push(item@));
                assert(views(holders@) =~= placeholder_list(1, (n + 1) as nat));
            }
            n += 1;
        }
        let mut sql = String::from_str("insert into ");
        sql.append(self.quoted_table(table).as_str());
        sql.append(" (");
        sql.append(join_strings(&names, ",").as_str());
        sql.append(") values (");
        sql.append(join_strings(&holders, ",").as_str());
        sql.append(")");
        assert(sql@ =~= insert_statement(self.ctx@, table@, views(cols@)));
        sql
    }

    /// The statement that updates the columns `cols` of the rows that
    /// `wh` selects.
    pub fn sql_update_columns(&self, table: &TableSchema, cols: &Vec<String>, wh: Option<Where>) -> (r:
        String)
        requires
            cols.len() + 1 + where_slots(condition_of(wh)) <= usize::MAX,
        ensures
            r@ == update_statement(self.ctx@, table@, views(cols@), condition_of(wh)),
    {
        let quoter = self.quoter();
        let ghost all = assignments(quoter@, views(cols@));
        let mut items: Vec<String> = Vec::new();
        let mut n: usize = 0;
        while n < cols.len()
            invariant
                n <= cols.len(),
                cols.len() < usize::MAX,
                all == assignments(quoter@, views(cols@)),
                views(items@) == all.take(n as int),
            decreases cols.len() - n,
        {
            let ghost before = items@;
            let mut item = quoter.quote(&cols[n]);
            item.append("=");
            item.append(placeholder_text(n + 1).as_str());
            items.push(item);
            proof {
                assert(views(items@) =~= views(before).push(item@));
                assert(views(items@) =~= all.take(n + 1));
            }
            n += 1;
        }
        assert(all.take(cols.len() as int) =~= all);
        let where_str = where_part(&wh, cols.len() + 1, &quoter);
        let mut sql = String::from_str("update ");
        sql.append(self.quoted_table(table).as_str());
        sql.append(" set ");
        sql.append(join_strings(&items, ",").as_str());
        sql.append(" ");
        sql.append(where_str.as_str());
        assert(sql@ =~= update_statement(self.ctx@, table@, views(cols@), condition_of(wh)));
        sql
    }

    /// The statement that deletes the rows that `wh` selects.
    pub fn sql_delete(&self, table: &TableSchema, wh: Option<Where>) -> (r: String)
        requires
            1 + where_slots(condition_of(wh)) <= usize::MAX,
        ensures
            r@ == delete_statement(self.ctx@, table@, condition_of(wh)),
    {
        let where_str = where_part(&wh, 1, &self.quoter());
        let mut sql = String::from_str("delete from ");
        sql.append(self.quoted_table(table).as_str());
        sql.append(" ");
        sql.append(where_str.as_str());
        sql
    }

    /// The statement that counts the rows that `wh` selects.
    pub fn sql_count(&self, table: &TableSchema, wh: Option<Where>) -> (r: String)
        requires
            1 + where_slots(condition_of(wh)) <= usize::MAX,
        ensures
            r@ == count_statement(self.ctx@, table@, condition_of(wh)),
    {
        let where_str = where_part(&wh, 1, &self.quoter());
        let mut sql = String::from_str("select count(0) as \"count\" from ");
        sql.append(self.quoted_table(table).as_str());
        sql.append(" ");
        sql.append(where_str.as_str());
        sql
    }

    /// The statement that selects all columns of `table`, each under
    /// the name of its field.
    pub fn sql_select(
        &self,
        table: &TableSchema,
        wh: Option<Where>,
        orders: &Vec<Order>,
        pg: Option<&PageRequest>,
    ) -> (r: String)
        requires
            1 + where_slots(condition_of(wh)) <= usize::MAX,
            pg is Some ==> page_offset(pg->0@) <= usize::MAX,
        ensures
            r@ == select_statement(
                self.ctx@,
                table@,
                query_columns(table@.columns),
                condition_of(wh),
                orders_view(orders@),
                page_of(pg),
            ),
    {
        let ghost all = query_columns(table@.columns);
        let mut cols: Vec<String> = Vec::new();
        let mut i: usize = 0;
        while i < table.columns.len()
            invariant
                i <= table.columns.len(),
                all == query_columns(columns_view(table.columns@)),
                views(cols@) == all.take(i as int),
            decreases table.columns.len() - i,
        {
            let ghost before = cols@;
            let name = table.columns[i].get_query_column_name();
            cols.push(name);
            proof {
                assert(views(cols@) =~= views(before).push(name@));
                assert(views(cols@) =~= all.take(i + 1));
            }
            i += 1;
        }
        assert(all.take(table.columns.len() as int) =~= all);
        self.sql_select_columns(table, &cols, wh, orders, pg)
    }

    /// The statement that selects the columns `columns` of `table`.
    pub fn sql_select_columns(
        &self,
        table: &TableSchema,
        columns: &Vec<String>,
        wh: Option<Where>,
        orders: &Vec<Order>,
        pg: Option<&PageRequest>,
    ) -> (r: String)
        requires
            1 + where_slots(condition_of(wh)) <= usize::MAX,
            pg is Some ==> page_offset(pg->0@) <= usize::MAX,
        ensures
            r@ == select_statement(
                self.ctx@,
                table@,
                views(columns@),
                condition_of(wh),
                orders_view(orders@),
                page_of(pg),
            ),
    {
        let quoter = self.quoter();
        let cols = quote_all(&quoter, columns);
        let where_str = where_part(&wh, 1, &quoter);
        let mut order_str = String::new();
        if orders.len() > 0 {
            let ghost all = order_items(quoter@, orders_view(orders@));
            let mut items: Vec<String> = Vec::new();
            let mut i: usize = 0;
            while i < orders.len()
                invariant
                    i <= orders.len(),
                    all == order_items(quoter@, orders_view(orders@)),
                    views(items@) == all.take(i as int),
                decreases orders.len() - i,
            {
                let ghost before = items@;
                let mut item = quoter.quote(&orders[i].field);
                item.append(" ");
                item.append(orders[i].order_type.sql().as_str());
                items.push(item);
                proof {
                    assert(views(items@) =~= views(before).push(item@));
                    assert(views(items@) =~= all.take(i + 1));
                }
                i += 1;
            }
            assert(all.take(orders.len() as int) =~= all);
            order_str.append(" order by ");
            order_str.append(join_strings(&items, ", ").as_str());
        }
        assert(order_str@ =~= order_clause(quoter@, orders_view(orders@)));
        let mut page_str = String::new();
        if let Some(page) = pg {
            let size = page.get_page_size();
            let before = page.get_page_no() - 1;
            assert(before * size == page_offset(page@)) by (nonlinear_arith)
                requires
                    before == page_number(page@) - 1,
                    size == page_length(page@),
                    page_offset(page@) == (page_number(page@) - 1) * page_length(page@),
            ;
            let offset = before * size;
            page_str.append("offset ");
            page_str.append(usize_to_string(offset).as_str());
            page_str.append(" limit ");
            page_str.append(usize_to_string(size).as_str());
        }
        assert(page_str@ =~= page_clause(page_of(pg)));
        let mut sql = String::from_str("select ");
        sql.append(join_strings(&cols, ",").as_str());
        sql.append(" from ");
        sql.append(self.quoted_table(table).as_str());
        sql.append(" ");
        sql.append(where_str.as_str());
        sql.append(" ");
        sql.append(order_str.as_str());
        sql.append(" ");
        sql.append(page_str.as_str());
        assert(sql@ =~= select_statement(
            self.ctx@,
            table@,
            views(columns@),
            condition_of(wh),
            orders_view(orders@),
            page_of(pg),
        ));
        sql
    }
}

} // verus!
