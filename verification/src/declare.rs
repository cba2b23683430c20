//! Declaring a table: from the fields of an entity and the attributes
//! given with them to the shape that reconciliation works on.

use vstd::prelude::*;
use vstd::string::*;
use heck::ToSnakeCase;
use crate::column::{assigned, columns_view, Column, ColumnView};
use crate::error::{SchemaError, SchemaErrorView};
use crate::index::{full_name, indexes_view, Index, IndexView};
use crate::postgres::type_relations_spec;
use crate::rust_types::R_STRING;
use crate::table::{
    blank_table, index_added, merged, tables_view, undeclared_index_column, TableSchema, TableView,
};
use crate::text::same_text;
use crate::types::{find_relation, native_type, relation_of, SqlType, SqlTypeView, TypeRelationView};

verus! {

/// The snake case form of a name, as the `heck` crate computes it.
pub uninterp spec fn snake_case_of(name: Seq<char>) -> Seq<char>;

/// Calls `ToSnakeCase::to_snake_case` of the `heck` crate on a text.
/// Only this is claimed: the result depends on the text alone.
#[verifier::external_body]
fn to_snake_case(name: &str) -> (r: String)
    ensures
        r@ == snake_case_of(name@),
{
    name.to_snake_case()
}

/// The type of a field: the path that names it, and the first type
/// argument where it has one.
#[derive(Debug)]
pub struct TypePath {
    pub path: String,
    pub argument: Option<Box<TypePath>>,
}

/// The type of a field as plain values.
pub struct TypePathView {
    pub path: Seq<char>,
    pub argument: Option<Box<TypePathView>>,
}

/// The view of the type of a field.
pub open spec fn type_path_view(t: TypePath) -> TypePathView
    decreases t,
{
    TypePathView {
        path: t.path@,
        argument: match t.argument {
            Some(inner) => Some(Box::new(type_path_view(*inner))),
            None => None,
        },
    }
}

impl View for TypePath {
    type V = TypePathView;

    open spec fn view(&self) -> TypePathView {
        type_path_view(*self)
    }
}

/// Whether a path names the optional type.
pub open spec fn is_option_path(path: Seq<char>) -> bool {
    path == "Option"@ || path == "std::option::Option"@ || path == "core::option::Option"@
}

/// How many layers of the optional type are wrapped round a type.
pub open spec fn option_layers(t: TypePathView) -> nat
    decreases t,
{
    match t.argument {
        Some(inner) => if is_option_path(t.path) {
            1 + option_layers(*inner)
        } else {
            0
        },
        None => 0,
    }
}

/// The path of the type inside the layers of the optional type.
pub open spec fn inner_path(t: TypePathView) -> Seq<char>
    decreases t,
{
    match t.argument {
        Some(inner) => if is_option_path(t.path) {
            inner_path(*inner)
        } else {
            t.path
        },
        None => t.path,
    }
}

/// Whether a path names the optional type.
pub fn is_option(ty: &str) -> (r: bool)
    ensures
        r == is_option_path(ty@),
{
    same_text(ty, "Option") || same_text(ty, "std::option::Option") || same_text(
        ty,
        "core::option::Option",
    )
}

/// How many layers of the optional type are wrapped round a type, and
/// the path of the type inside them.
pub fn parse_type_options(ty: &TypePath) -> (r: (isize, String))
    requires
        option_layers(ty@) <= isize::MAX,
    ensures
        r.0 == option_layers(ty@),
        r.1@ == inner_path(ty@),
    decreases ty,
{
    if is_option(ty.path.as_str()) {
        if let Some(inner) = &ty.argument {
            let (option_count, path) = parse_type_options(&**inner);
            return (option_count + 1, path);
        }
    }
    (0, ty.path.clone())
}

fn inner_type(ty: &TypePath) -> (r: (bool, String))
    ensures
        r.0 == (option_layers(ty@) > 0),
        r.1@ == inner_path(ty@),
    decreases ty,
{
    if is_option(ty.path.as_str()) {
        if let Some(inner) = &ty.argument {
            let (_, path) = inner_type(&**inner);
            return (true, path);
        }
    }
    (false, ty.path.clone())
}

/// A column without attributes: only its name, its type and whether
/// it may be empty are set.
pub open spec fn plain_column(name: Seq<char>, typ: SqlTypeView, nullable: bool) -> ColumnView {
    ColumnView {
        name,
        column: None,
        col_type: None,
        typ,
        ignore: false,
        pk: false,
        autoincr: false,
        comment: None,
        nullable,
        default: None,
        from: None,
        replace: false,
    }
}

/// A column with one more attribute merged in. A length of the
/// attribute sets the length of a text column.
pub open spec fn with_attribute(
    col: ColumnView,
    rel: TypeRelationView,
    is_text: bool,
    attr: ColumnView,
) -> ColumnView {
    assigned(
        if is_text && attr.typ.len is Some {
            ColumnView { typ: native_type(rel, attr.typ.len), ..col }
        } else {
            col
        },
        attr,
    )
}

/// The column of a field after the first `n` of its attributes; none
/// once an attribute says that the field is left out.
pub open spec fn column_with_attributes(
    base: ColumnView,
    rel: TypeRelationView,
    is_text: bool,
    attrs: Seq<ColumnView>,
    n: int,
) -> Option<ColumnView>
    decreases n,
{
    if n <= 0 || n > attrs.len() {
        Some(base)
    } else {
        match column_with_attributes(base, rel, is_text, attrs, n - 1) {
            Some(col) => if attrs[n - 1].ignore {
                None
            } else {
                Some(with_attribute(col, rel, is_text, attrs[n - 1]))
            },
            None => None,
        }
    }
}

/// The column that a field declares, given the relation of its type.
pub open spec fn declared_column(
    field_name: Seq<char>,
    ty: TypePathView,
    rel: TypeRelationView,
    attrs: Seq<ColumnView>,
) -> Option<ColumnView> {
    column_with_attributes(
        plain_column(field_name, native_type(rel, None), option_layers(ty) > 0),
        rel,
        inner_path(ty) == R_STRING@,
        attrs,
        attrs.len() as int,
    )
}

/// The column that the field `field_name` of the type `ty` declares
/// with the attributes `attrs`: none where an attribute says that the
/// field is left out; `UnknownScalarType` where the type has no relation.
pub fn parse_column_attrs(field_name: &String, ty: &TypePath, attrs: &Vec<Column>) -> (r: Result<
    Option<Column>,
    SchemaError,
>)
    ensures
        match relation_of(type_relations_spec(), inner_path(ty@)) {
            Some(rel) => r is Ok && (match declared_column(
                field_name@,
                ty@,
                rel,
                columns_view(attrs@),
            ) {
                Some(col) => r->Ok_0 is Some && r->Ok_0->0@ == col,
                None => r->Ok_0 is None,
            }),
            None => r is Err && r->Err_0@ == SchemaErrorView::UnknownScalarType(inner_path(ty@)),
        },
{
    let (has_option, rust_type) = inner_type(ty);
    let rel = match find_relation(&rust_type) {
        Ok(rel) => rel,
        Err(e) => {
            return Err(e);
        },
    };
    let typ = match SqlType::new(&rust_type, None) {
        Ok(t) => t,
        Err(e) => {
            return Err(e);
        },
    };
    let is_text = same_text(rust_type.as_str(), R_STRING);
    let mut column = Column {
        name: field_name.clone(),
        column: None,
        col_type: None,
        typ,
        ignore: false,
        pk: false,
        autoincr: false,
        comment: None,
        nullable: has_option,
        default: None,
        from: None,
        replace: false,
    };
    let ghost base = column@;
    let ghost all = columns_view(attrs@);
    let mut i: usize = 0;
    while i < attrs.len()
        invariant
            i <= attrs.len(),
            all == columns_view(attrs@),
            is_text == (inner_path(ty@) == R_STRING@),
            rust_type@ == inner_path(ty@),
            relation_of(type_relations_spec(), rust_type@) == Some(rel@),
            base == plain_column(field_name@, native_type(rel@, None), option_layers(ty@) > 0),
            column_with_attributes(base, rel@, is_text, all, i as int) == Some(column@),
        decreases attrs.len() - i,
    {
        let col = &attrs[i];
        assert(all[i as int] == col@);
        if col.ignore {
            proof {
                lemma_left_out_stays_left_out(base, rel@, is_text, all, i + 1, all.len() as int);
            }
            return Ok(None);
        }
        if is_text && col.typ.len.is_some() {
            match SqlType::new(&rust_type, col.typ.len) {
                Ok(t) => {
                    column.typ = t;
                },
                Err(e) => {
                    return Err(e);
                },
            }
        }
        column.assign(col);
        i += 1;
    }
    Ok(Some(column))
}

proof fn lemma_left_out_stays_left_out(
    base: ColumnView,
    rel: TypeRelationView,
    is_text: bool,
    attrs: Seq<ColumnView>,
    n: int,
    m: int,
)
    requires
        0 <= n <= m <= attrs.len(),
        column_with_attributes(base, rel, is_text, attrs, n) is None,
    ensures
        column_with_attributes(base, rel, is_text, attrs, m) is None,
    decreases m - n,
{
    if n < m {
        lemma_left_out_stays_left_out(base, rel, is_text, attrs, n, m - 1);
    }
}

/// The table after the first `n` attribute groups were merged into it.
pub open spec fn merged_attributes(attrs: Seq<TableView>, n: int) -> TableView
    decreases n,
{
    if n <= 0 || n > attrs.len() {
        blank_table()
    } else {
        merged(merged_attributes(attrs, n - 1), attrs[n - 1])
    }
}

/// A table with its name, or the default one where it has none.
pub open spec fn named(t: TableView, default_name: Seq<char>) -> TableView {
    if t.name.len() == 0 {
        TableView { name: default_name, ..t }
    } else {
        t
    }
}

/// The table with the first `n` of `list` added as indexes, or the
/// name of the first index whose name is taken.
pub open spec fn indexes_added(t: TableView, list: Seq<IndexView>, n: int) -> Result<
    TableView,
    Seq<char>,
>
    decreases n,
{
    if n <= 0 || n > list.len() {
        Ok(t)
    } else {
        match indexes_added(t, list, n - 1) {
            Ok(before) => match index_added(before, list[n - 1]) {
                Some(after) => Ok(after),
                None => Err(full_name(list[n - 1], before.name)),
            },
            Err(name) => Err(name),
        }
    }
}

/// The table that the attributes declare: the attribute groups merged,
/// the default name where none is given, the indexes of the groups
/// added under their full names, and then the indexes given apart.
pub open spec fn declared_table(
    attrs: Seq<TableView>,
    indexes: Seq<IndexView>,
    default_name: Seq<char>,
) -> Result<TableView, Seq<char>> {
    let base = named(merged_attributes(attrs, attrs.len() as int), default_name);
    let own = match base.indexes {
        Some(list) => list,
        None => Seq::empty(),
    };
    match indexes_added(TableView { indexes: None, ..base }, own, own.len() as int) {
        Ok(t) => indexes_added(t, indexes, indexes.len() as int),
        Err(name) => Err(name),
    }
}

fn add_indexes(table: &mut TableSchema, list: &Vec<Index>) -> (r: Result<(), SchemaError>)
    ensures
        match indexes_added(old(table)@, indexes_view(list@), list@.len() as int) {
            Ok(t) => r is Ok && final(table)@ == t,
            Err(name) => r is Err && r->Err_0@ == SchemaErrorView::DuplicateIndexName(name),
        },
{
    let ghost all = indexes_view(list@);
    let ghost start = table@;
    let mut i: usize = 0;
    while i < list.len()
        invariant
            i <= list.len(),
            all == indexes_view(list@),
            start == old(table)@,
            indexes_added(start, all, i as int) == Ok::<TableView, Seq<char>>(table@),
        decreases list.len() - i,
    {
        let idx = list[i].clone();
        assert(all[i as int] == idx@);
        match table.add_index(idx) {
            Ok(_) => {},
            Err(e) => {
                proof {
                    lemma_refused_index_stays_refused(start, all, i + 1, all.len() as int);
                }
                return Err(e);
            },
        }
        i += 1;
    }
    Ok(())
}

proof fn lemma_refused_index_stays_refused(t: TableView, list: Seq<IndexView>, n: int, m: int)
    requires
        0 <= n <= m <= list.len(),
        indexes_added(t, list, n) is Err,
    ensures
        indexes_added(t, list, m) == indexes_added(t, list, n),
    decreases m - n,
{
    if n < m {
        lemma_refused_index_stays_refused(t, list, n, m - 1);
    }
}

/// The table that the attribute groups `attrs` and the indexes
/// `indexes` declare, under the name `default_table_name` where the
/// attributes give none. `DuplicateIndexName` where an index has a name
/// of its own that is taken.
pub fn parse_table_attrs(attrs: Vec<TableSchema>, indexes: Vec<Index>, default_table_name: String) -> (r:
    Result<TableSchema, SchemaError>)
    ensures
        match declared_table(tables_view(attrs@), indexes_view(indexes@), default_table_name@) {
            Ok(t) => r is Ok && r->Ok_0@ == t,
            Err(name) => r is Err && r->Err_0@ == SchemaErrorView::DuplicateIndexName(name),
        },
{
    let mut table = TableSchema::default();
    let ghost all = tables_view(attrs@);
    let mut i: usize = 0;
    while i < attrs.len()
        invariant
            i <= attrs.len(),
            all == tables_view(attrs@),
            table@ == merged_attributes(all, i as int),
        decreases attrs.len() - i,
    {
        let tbl = attrs[i].clone();
        assert(all[i as int] == tbl@);
        let _ = table.assign(tbl);
        i += 1;
    }
    if table.name.as_str().is_empty() {
        table.name = default_table_name;
    }
    let ghost base = table@;
    let own = table.indexes.take();
    match own {
        Some(raws) => {
            match add_indexes(&mut table, &raws) {
                Ok(_) => {},
                Err(e) => {
                    return Err(e);
                },
            }
        },
        None => {},
    }
    add_indexes(&mut table, &indexes)?;
    Ok(table)
}

/// The table that an entity declares.
pub open spec fn derived_table(
    default_name: Seq<char>,
    attrs: Seq<TableView>,
    indexes: Seq<IndexView>,
    columns: Seq<ColumnView>,
) -> Result<TableView, SchemaErrorView> {
    match declared_table(attrs, indexes, default_name) {
        Ok(t) => {
            let table = TableView { columns, ..t };
            match undeclared_index_column(table) {
                Some(name) => Err(SchemaErrorView::UndeclaredIndexColumn(name)),
                None => Ok(table),
            }
        },
        Err(name) => Err(SchemaErrorView::DuplicateIndexName(name)),
    }
}

/// The table of the columns `columns` with the attributes `attrs` and
/// the indexes `indexes`, under the name `default_table_name` where the
/// attributes give none. The indexes are checked before anything is
/// asked of a database: `DuplicateIndexName` where a name is taken,
/// `UndeclaredIndexColumn` where an index names a column that is not
/// among `columns`.
pub fn declare_table(
    default_table_name: String,
    attrs: Vec<TableSchema>,
    indexes: Vec<Index>,
    columns: Vec<Column>,
) -> (r: Result<TableSchema, SchemaError>)
    ensures
        match derived_table(
            default_table_name@,
            tables_view(attrs@),
            indexes_view(indexes@),
            columns_view(columns@),
        ) {
            Ok(t) => r is Ok && r->Ok_0@ == t,
            Err(e) => r is Err && r->Err_0@ == e,
        },
{
    let mut table = match parse_table_attrs(attrs, indexes, default_table_name) {
        Ok(t) => t,
        Err(e) => {
            return Err(e);
        },
    };
    table.columns = columns;
    match table.check_indexes_columns() {
        Ok(_) => Ok(table),
        Err(e) => Err(e),
    }
}

/// The table that the entity `entity` declares: as `declare_table`
/// gives it, under the snake case form of the name of the entity where
/// the attributes give no name.
pub fn derive_table(entity: &str, attrs: Vec<TableSchema>, indexes: Vec<Index>, columns: Vec<Column>) -> (r:
    Result<TableSchema, SchemaError>)
    ensures
        match derived_table(
            snake_case_of(entity@),
            tables_view(attrs@),
            indexes_view(indexes@),
            columns_view(columns@),
        ) {
            Ok(t) => r is Ok && r->Ok_0@ == t,
            Err(e) => r is Err && r->Err_0@ == e,
        },
{
    let default_table_name = to_snake_case(entity);
    declare_table(default_table_name, attrs, indexes, columns)
}

} // verus!
