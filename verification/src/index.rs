//! The indexes of a table.

use vstd::prelude::*;
use vstd::string::*;
use crate::text::{
    copy_strings, eq_ignoring_case, int_decimal, isize_to_string, join, join_strings,
    lemma_nat_decimal_tells_apart, same_ignoring_case, same_strings, views,
};

verus! {

/// An index over some columns of a table.
#[derive(Debug, PartialEq, Eq)]
pub struct Index {
    /// The columns, in the order of the index.
    pub columns: Vec<String>,
    /// The name; empty where one is to be derived.
    pub name: String,
    pub unique: bool,
}

/// An index as plain values.
pub struct IndexView {
    pub columns: Seq<Seq<char>>,
    pub name: Seq<char>,
    pub unique: bool,
}

impl View for Index {
    type V = IndexView;

    open spec fn view(&self) -> IndexView {
        IndexView { columns: views(self.columns@), name: self.name@, unique: self.unique }
    }
}

/// The views of a list of indexes.
pub open spec fn indexes_view(list: Seq<Index>) -> Seq<IndexView> {
    list.map_values(|i: Index| i@)
}

/// The views of a list of indexes that may be missing.
pub open spec fn opt_indexes_view(list: Option<Vec<Index>>) -> Option<Seq<IndexView>> {
    match list {
        Some(v) => Some(indexes_view(v@)),
        None => None,
    }
}

/// The word for the kind of an index in its name.
pub open spec fn kind_word(unique: bool) -> Seq<char> {
    if unique {
        "uqe"@
    } else {
        "idx"@
    }
}

/// What comes last in the name of an index: its own name, or its
/// columns joined by `_` where it has none.
pub open spec fn name_tail(i: IndexView) -> Seq<char> {
    if i.name.len() == 0 {
        join(i.columns, "_"@)
    } else {
        i.name
    }
}

/// The full name of an index of the table `table`:
/// table, kind and tail, with `_` between them.
pub open spec fn full_name(i: IndexView, table: Seq<char>) -> Seq<char> {
    table + "_"@ + kind_word(i.unique) + "_"@ + name_tail(i)
}

/// The full name with a number in it, which tells apart two indexes
/// that would get the same derived name. An index with a name of its
/// own gets no number.
pub open spec fn numbered_name(i: IndexView, table: Seq<char>, number: int) -> Seq<char> {
    if i.name.len() == 0 {
        table + "_"@ + kind_word(i.unique) + "_"@ + int_decimal(number) + "_"@ + join(
            i.columns,
            "_"@,
        )
    } else {
        full_name(i, table)
    }
}

/// Two numbers give an index without a name of its own two names.
pub proof fn lemma_numbers_tell_names_apart(i: IndexView, table: Seq<char>, n: int, m: int)
    requires
        i.name.len() == 0,
        0 <= n,
        0 <= m,
        n != m,
    ensures
        numbered_name(i, table, n) != numbered_name(i, table, m),
{
    let head = table + "_"@ + kind_word(i.unique) + "_"@;
    let tail = "_"@ + join(i.columns, "_"@);
    let a = int_decimal(n);
    let b = int_decimal(m);
    let x = numbered_name(i, table, n);
    let y = numbered_name(i, table, m);
    assert(x =~= head + a + tail);
    assert(y =~= head + b + tail);
    if x == y {
        assert(a.len() == b.len());
        assert(a =~= x.subrange(head.len() as int, (head.len() + a.len()) as int));
        assert(b =~= y.subrange(head.len() as int, (head.len() + b.len()) as int));
        lemma_nat_decimal_tells_apart(n as nat, m as nat);
    }
}

impl Default for Index {
    fn default() -> (r: Self)
        ensures
            r@ == (IndexView { columns: Seq::empty(), name: Seq::empty(), unique: false }),
    {
        let r = Index { columns: Vec::new(), name: String::new(), unique: false };
        assert(r@.columns =~= Seq::<Seq<char>>::empty());
        r
    }
}

impl Clone for Index {
    fn clone(&self) -> (r: Self)
        ensures
            r@ == self@,
    {
        Index { columns: copy_strings(&self.columns), name: self.name.clone(), unique: self.unique }
    }
}

impl Index {
    /// Whether the two indexes have the same name, whatever the case
    /// of the letters.
    pub fn is_name_equal(&self, idx: &Index) -> (r: bool)
        ensures
            r == same_ignoring_case(self@.name, idx@.name),
    {
        eq_ignoring_case(self.name.as_str(), idx.name.as_str())
    }

    /// Whether the two indexes cover the same columns in the same order.
    pub fn is_columns_equal(&self, idx: &Index) -> (r: bool)
        ensures
            r == (self@.columns == idx@.columns),
    {
        same_strings(&idx.columns, &self.columns)
    }

    fn name_head(&self, table_name: &String) -> (r: String)
        ensures
            r@ == table_name@ + "_"@ + kind_word(self@.unique) + "_"@,
    {
        let mut out = table_name.clone();
        out.append("_");
        if self.unique {
            out.append("uqe");
        } else {
            out.append("idx");
        }
        out.append("_");
        out
    }

    /// The full name of the index, and whether the index has a name of
    /// its own.
    pub fn get_name(&self, table_name: &String) -> (r: (String, bool))
        ensures
            r.0@ == full_name(self@, table_name@),
            r.1 == (self@.name.len() > 0),
    {
        let mut out = self.name_head(table_name);
        if self.name.as_str().is_empty() {
            out.append(join_strings(&self.columns, "_").as_str());
            (out, false)
        } else {
            out.append(self.name.as_str());
            (out, true)
        }
    }

    /// The full name of the index with `index` in it, and whether the
    /// index has a name of its own.
    pub fn get_name_with_index(&self, table_name: &String, index: i32) -> (r: (String, bool))
        ensures
            r.0@ == numbered_name(self@, table_name@, index as int),
            r.1 == (self@.name.len() > 0),
    {
        let mut out = self.name_head(table_name);
        if self.name.as_str().is_empty() {
            out.append(isize_to_string(index as isize).as_str());
            out.append("_");
            out.append(join_strings(&self.columns, "_").as_str());
            assert(out@ =~= numbered_name(self@, table_name@, index as int));
            (out, false)
        } else {
            out.append(self.name.as_str());
            (out, true)
        }
    }
}

} // verus!
