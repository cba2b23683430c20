//! The columns of a table.

use vstd::prelude::*;
use vstd::std_specs::cmp::PartialEqSpecImpl;
use vstd::string::*;
use crate::text::{eq_ignoring_case, opt_view, same_ignoring_case, same_text};
use crate::postgres::{is_same_type, same_type};
use crate::types::{SqlType, SqlTypeView};

verus! {

/// A column as it is declared, or as the database reports it.
#[derive(Debug)]
pub struct Column {
    /// The name of the field that the column belongs to.
    pub name: String,
    /// The name of the column in the database, where it differs.
    pub column: Option<String>,
    /// A SQL type given by hand, for where no scalar type fits.
    pub col_type: Option<String>,
    /// The SQL type.
    pub typ: SqlType,
    /// Whether the field is left out of the table.
    pub ignore: bool,
    /// Whether the column belongs to the primary key.
    pub pk: bool,
    /// Whether the database numbers the rows in this column.
    pub autoincr: bool,
    pub comment: Option<String>,
    pub nullable: bool,
    /// The default value, as it is written in a statement.
    pub default: Option<String>,
    /// The earlier name of the column.
    pub from: Option<String>,
    /// Whether the column may be dropped and added again where it
    /// cannot be altered.
    pub replace: bool,
}

/// A column as plain values.
pub struct ColumnView {
    pub name: Seq<char>,
    pub column: Option<Seq<char>>,
    pub col_type: Option<Seq<char>>,
    pub typ: SqlTypeView,
    pub ignore: bool,
    pub pk: bool,
    pub autoincr: bool,
    pub comment: Option<Seq<char>>,
    pub nullable: bool,
    pub default: Option<Seq<char>>,
    pub from: Option<Seq<char>>,
    pub replace: bool,
}

impl View for Column {
    type V = ColumnView;

    open spec fn view(&self) -> ColumnView {
        ColumnView {
            name: self.name@,
            column: opt_view(self.column),
            col_type: opt_view(self.col_type),
            typ: self.typ@,
            ignore: self.ignore,
            pk: self.pk,
            autoincr: self.autoincr,
            comment: opt_view(self.comment),
            nullable: self.nullable,
            default: opt_view(self.default),
            from: opt_view(self.from),
            replace: self.replace,
        }
    }
}

/// The views of a list of columns.
pub open spec fn columns_view(columns: Seq<Column>) -> Seq<ColumnView> {
    columns.map_values(|c: Column| c@)
}

/// The name of the column in the database.
pub open spec fn column_name(c: ColumnView) -> Seq<char> {
    match c.column {
        Some(name) => name,
        None => c.name,
    }
}

/// The column as a query selects it: under the name of its field.
pub open spec fn query_column_name(c: ColumnView) -> Seq<char> {
    match c.column {
        Some(name) => name + " as "@ + c.name,
        None => c.name,
    }
}

/// Whether two columns have the same name in the database, whatever
/// the case of the letters.
pub open spec fn same_column_name(a: ColumnView, b: ColumnView) -> bool {
    same_ignoring_case(column_name(a), column_name(b))
}

/// Whether nothing is to be altered between two columns: same name,
/// type, numbering, nullability and default. The primary key is left
/// out, since it is never altered in place.
pub open spec fn same_column(a: ColumnView, b: ColumnView) -> bool {
    same_column_name(a, b) && same_type(a.typ, b.typ) && a.autoincr == b.autoincr && a.nullable
        == b.nullable && a.default == b.default
}

/// `first` where it is there, else `second`.
pub open spec fn or_else(first: Option<Seq<char>>, second: Option<Seq<char>>) -> Option<Seq<char>> {
    if first is Some {
        first
    } else {
        second
    }
}

/// A column after the attributes of `source` were merged into it: a
/// flag that is not set and a text that is not there are taken from
/// `source`; an earlier name is replaced by that of `source`.
pub open spec fn assigned(target: ColumnView, source: ColumnView) -> ColumnView {
    ColumnView {
        pk: target.pk || source.pk,
        autoincr: target.autoincr || source.autoincr,
        column: or_else(target.column, source.column),
        col_type: or_else(target.col_type, source.col_type),
        comment: or_else(target.comment, source.comment),
        default: or_else(target.default, source.default),
        from: if target.from is Some {
            source.from
        } else {
            target.from
        },
        replace: target.replace || source.replace,
        ..target
    }
}

/// A copy of an optional text.
pub fn copy_text(s: &Option<String>) -> (r: Option<String>)
    ensures
        opt_view(r) == opt_view(*s),
{
    match s {
        Some(t) => Some(t.clone()),
        None => None,
    }
}

/// A copy of `first` where it is there, else of `second`.
pub fn copy_first(first: &Option<String>, second: &Option<String>) -> (r: Option<String>)
    ensures
        opt_view(r) == or_else(opt_view(*first), opt_view(*second)),
{
    match first {
        Some(t) => Some(t.clone()),
        None => copy_text(second),
    }
}

/// Whether two optional texts are the same.
pub fn same_opt_text(a: &Option<String>, b: &Option<String>) -> (r: bool)
    ensures
        r == (opt_view(*a) == opt_view(*b)),
{
    match (a, b) {
        (Some(x), Some(y)) => same_text(x.as_str(), y.as_str()),
        (None, None) => true,
        _ => false,
    }
}

/// The column without a name, of the type without a name, with nothing set.
pub open spec fn blank_column() -> ColumnView {
    ColumnView {
        name: Seq::empty(),
        column: None,
        col_type: None,
        typ: SqlTypeView { name: Seq::empty(), len: None, len2: None, fixed_len: None },
        ignore: false,
        pk: false,
        autoincr: false,
        comment: None,
        nullable: false,
        default: None,
        from: None,
        replace: false,
    }
}

impl Default for Column {
    fn default() -> (r: Self)
        ensures
            r@ == blank_column(),
    {
        Column {
            name: String::new(),
            column: None,
            col_type: None,
            typ: SqlType::default(),
            ignore: false,
            pk: false,
            autoincr: false,
            comment: None,
            nullable: false,
            default: None,
            from: None,
            replace: false,
        }
    }
}

impl Clone for Column {
    fn clone(&self) -> (r: Self)
        ensures
            r@ == self@,
    {
        Column {
            name: self.name.clone(),
            column: copy_text(&self.column),
            col_type: copy_text(&self.col_type),
            typ: self.typ.clone(),
            ignore: self.ignore,
            pk: self.pk,
            autoincr: self.autoincr,
            comment: copy_text(&self.comment),
            nullable: self.nullable,
            default: copy_text(&self.default),
            from: copy_text(&self.from),
            replace: self.replace,
        }
    }
}

impl PartialEq for Column {
    fn eq(&self, other: &Self) -> (r: bool) {
        self.is_name_equal(other) && is_same_type(&self.typ, &other.typ) && self.autoincr
            == other.autoincr
            && self.nullable == other.nullable && same_opt_text(&self.default, &other.default)
    }
}

impl PartialEqSpecImpl for Column {
    open spec fn obeys_eq_spec() -> bool {
        true
    }

    open spec fn eq_spec(&self, other: &Self) -> bool {
        same_column(self@, other@)
    }
}

impl Eq for Column {

}

impl Column {
    /// Whether the two columns have the same name in the database,
    /// whatever the case of the letters.
    pub fn is_name_equal(&self, col: &Column) -> (r: bool)
        ensures
            r == same_column_name(self@, col@),
    {
        let mine = self.get_column_name();
        let theirs = col.get_column_name();
        eq_ignoring_case(mine.as_str(), theirs.as_str())
    }

    /// The name of the column in the database.
    pub fn get_column_name(&self) -> (r: String)
        ensures
            r@ == column_name(self@),
    {
        match &self.column {
            Some(name) => name.clone(),
            None => self.name.clone(),
        }
    }

    /// The column as a query selects it: `column as field` where the two
    /// names differ.
    pub fn get_query_column_name(&self) -> (r: String)
        ensures
            r@ == query_column_name(self@),
    {
        match &self.column {
            Some(name) => {
                let mut out = name.clone();
                out.append(" as ");
                out.append(self.name.as_str());
                out
            },
            None => self.name.clone(),
        }
    }

    /// Merges the attributes of `source` into the column.
    pub fn assign(&mut self, source: &Column)
        ensures
            final(self)@ == assigned(old(self)@, source@),
    {
        self.pk = self.pk || source.pk;
        self.autoincr = self.autoincr || source.autoincr;
        self.column = copy_first(&self.column, &source.column);
        self.col_type = copy_first(&self.col_type, &source.col_type);
        self.comment = copy_first(&self.comment, &source.comment);
        self.default = copy_first(&self.default, &source.default);
        if self.from.is_some() {
            self.from = copy_text(&source.from);
        }
        self.replace = self.replace || source.replace;
    }
}

} // verus!
