//! The shape of a table: its columns, its indexes, and what may be done
//! to bring the database to it.

use vstd::prelude::*;
use vstd::string::*;
use crate::column::{
    column_name, columns_view, copy_first, copy_text, or_else, Column, ColumnView,
};
use crate::error::SchemaError;
use crate::index::{
    full_name, indexes_view, lemma_numbers_tell_names_apart, numbered_name, opt_indexes_view,
    Index, IndexView,
};
use crate::text::{opt_view, same_text, views};

verus! {

/// A table as it is declared, or as the database reports it.
#[derive(Debug)]
pub struct TableSchema {
    pub name: String,
    /// The namespace that the table lives in.
    pub schema: Option<String>,
    pub comment: Option<String>,
    pub indexes: Option<Vec<Index>>,
    pub columns: Vec<Column>,
    /// The earlier name of the table.
    pub from: Option<String>,
    /// A tag that asks for the table to be dropped and built anew, once
    /// for each value of the tag.
    pub recreate: Option<String>,
    /// Whether columns that are not declared are dropped.
    pub trim_columns: bool,
    /// Whether indexes that are not declared are dropped.
    pub trim_indexes: bool,
}

/// A table as plain values.
pub struct TableView {
    pub name: Seq<char>,
    pub schema: Option<Seq<char>>,
    pub comment: Option<Seq<char>>,
    pub indexes: Option<Seq<IndexView>>,
    pub columns: Seq<ColumnView>,
    pub from: Option<Seq<char>>,
    pub recreate: Option<Seq<char>>,
    pub trim_columns: bool,
    pub trim_indexes: bool,
}

impl View for TableSchema {
    type V = TableView;

    open spec fn view(&self) -> TableView {
        TableView {
            name: self.name@,
            schema: opt_view(self.schema),
            comment: opt_view(self.comment),
            indexes: opt_indexes_view(self.indexes),
            columns: columns_view(self.columns@),
            from: opt_view(self.from),
            recreate: opt_view(self.recreate),
            trim_columns: self.trim_columns,
            trim_indexes: self.trim_indexes,
        }
    }
}

/// The views of a list of tables.
pub open spec fn tables_view(list: Seq<TableSchema>) -> Seq<TableView> {
    list.map_values(|t: TableSchema| t@)
}

/// `name` with the namespace in front, where there is one.
pub open spec fn in_namespace(schema: Option<Seq<char>>, name: Seq<char>) -> Seq<char> {
    match schema {
        Some(s) => s + "."@ + name,
        None => name,
    }
}

/// The name of the table with its namespace.
pub open spec fn qualified_name(t: TableView) -> Seq<char> {
    in_namespace(t.schema, t.name)
}

/// The first of `columns` whose name in the database is exactly `name`.
pub open spec fn column_named(columns: Seq<ColumnView>, name: Seq<char>) -> Option<ColumnView>
    decreases columns.len(),
{
    if columns.len() == 0 {
        None
    } else if column_name(columns[0]) == name {
        Some(columns[0])
    } else {
        column_named(columns.drop_first(), name)
    }
}

/// The first of `names` that is the name of none of `columns`.
pub open spec fn first_undeclared(columns: Seq<ColumnView>, names: Seq<Seq<char>>) -> Option<
    Seq<char>,
>
    decreases names.len(),
{
    if names.len() == 0 {
        None
    } else if column_named(columns, names[0]) is None {
        Some(names[0])
    } else {
        first_undeclared(columns, names.drop_first())
    }
}

/// The first column of an index of `indexes` that is the name of none
/// of `columns`, the indexes taken in order.
pub open spec fn first_undeclared_in(columns: Seq<ColumnView>, indexes: Seq<IndexView>) -> Option<
    Seq<char>,
>
    decreases indexes.len(),
{
    if indexes.len() == 0 {
        None
    } else {
        match first_undeclared(columns, indexes[0].columns) {
            Some(name) => Some(name),
            None => first_undeclared_in(columns, indexes.drop_first()),
        }
    }
}

/// The index column that a table fails to declare, if there is one.
pub open spec fn undeclared_index_column(t: TableView) -> Option<Seq<char>> {
    match t.indexes {
        Some(list) => first_undeclared_in(t.columns, list),
        None => None,
    }
}

/// A table after the attributes of `source` were merged into it: a name
/// that is empty, a text that is not there and a flag that is not set
/// are taken from `source`, and the indexes of `source` are added behind
/// its own. The columns stay.
pub open spec fn merged(target: TableView, source: TableView) -> TableView {
    TableView {
        name: if target.name.len() == 0 {
            source.name
        } else {
            target.name
        },
        comment: or_else(target.comment, source.comment),
        schema: or_else(target.schema, source.schema),
        recreate: or_else(target.recreate, source.recreate),
        from: or_else(target.from, source.from),
        trim_columns: target.trim_columns || source.trim_columns,
        trim_indexes: target.trim_indexes || source.trim_indexes,
        indexes: match source.indexes {
            Some(added) => match target.indexes {
                Some(own) => Some(own + added),
                None => if added.len() == 0 {
                    None
                } else {
                    Some(added)
                },
            },
            None => target.indexes,
        },
        columns: target.columns,
    }
}

/// Whether an index of `list` has exactly the name `name`.
pub open spec fn name_taken(list: Seq<IndexView>, name: Seq<char>) -> bool {
    exists|k: int| 0 <= k < list.len() && #[trigger] list[k].name == name
}

/// The first number from `n` on with which the derived name of `i` is
/// free in `list`.
pub open spec fn free_number(list: Seq<IndexView>, i: IndexView, table: Seq<char>, n: int) -> Option<
    int,
>
    decreases i32::MAX + 1 - n,
{
    if n < 1 || n > i32::MAX {
        None
    } else if !name_taken(list, numbered_name(i, table, n)) {
        Some(n)
    } else {
        free_number(list, i, table, n + 1)
    }
}

/// The name under which `i` joins the indexes `list` of the table
/// `table`: its full name where that is free; else, for an index
/// without a name of its own, the first free name with a number in it.
/// `None` where no name is free.
pub open spec fn chosen_name(list: Seq<IndexView>, i: IndexView, table: Seq<char>) -> Option<
    Seq<char>,
> {
    if !name_taken(list, full_name(i, table)) {
        Some(full_name(i, table))
    } else if i.name.len() > 0 {
        None
    } else {
        match free_number(list, i, table, 1) {
            Some(n) => Some(numbered_name(i, table, n)),
            None => None,
        }
    }
}

/// The table with one more index, or `None` where the name of the
/// index is taken.
pub open spec fn index_added(t: TableView, i: IndexView) -> Option<TableView> {
    match t.indexes {
        None => Some(
            TableView { indexes: Some(seq![IndexView { name: full_name(i, t.name), ..i }]), ..t },
        ),
        Some(list) => match chosen_name(list, i, t.name) {
            Some(name) => Some(TableView { indexes: Some(list.push(IndexView { name, ..i })), ..t }),
            None => None,
        },
    }
}

/// Of more names than there are indexes, all different, one is free.
proof fn lemma_one_name_is_free(list: Seq<IndexView>, names: Seq<Seq<char>>)
    requires
        names.len() > list.len(),
        forall|a: int, b: int| 0 <= a < b < names.len() ==> names[a] != names[b],
    ensures
        exists|k: int| 0 <= k < names.len() && !name_taken(list, #[trigger] names[k]),
    decreases list.len(),
{
    if list.len() == 0 {
        assert(!name_taken(list, names[0]));
    } else {
        let last = list.last().name;
        let shorter = list.drop_last();
        assert forall|name: Seq<char>| name_taken(list, name) implies name_taken(shorter, name)
            || name == last by {
            let k = choose|k: int| 0 <= k < list.len() && #[trigger] list[k].name == name;
            if k < list.len() - 1 {
                assert(shorter[k].name == name);
            }
        }
        if exists|j: int| 0 <= j < names.len() && names[j] == last {
            let j = choose|j: int| 0 <= j < names.len() && names[j] == last;
            let fewer = names.remove(j);
            assert(fewer.len() == names.len() - 1);
            assert forall|a: int, b: int| 0 <= a < b < fewer.len() implies fewer[a] != fewer[b] by {
                let a2 = if a < j {
                    a
                } else {
                    a + 1
                };
                let b2 = if b < j {
                    b
                } else {
                    b + 1
                };
                assert(fewer[a] == names[a2]);
                assert(fewer[b] == names[b2]);
            }
            lemma_one_name_is_free(shorter, fewer);
            let k = choose|k: int| 0 <= k < fewer.len() && !name_taken(shorter, #[trigger] fewer[k]);
            let k2 = if k < j {
                k
            } else {
                k + 1
            };
            assert(fewer[k] == names[k2]);
            assert(names[k2] != last) by {
                if k2 < j {
                    assert(names[k2] != names[j]);
                } else {
                    assert(names[j] != names[k2]);
                }
            }
            assert(!name_taken(list, names[k2]));
        } else {
            lemma_one_name_is_free(shorter, names);
            let k = choose|k: int| 0 <= k < names.len() && !name_taken(shorter, #[trigger] names[k]);
            assert(names[k] != last);
            assert(!name_taken(list, names[k]));
        }
    }
}

/// Where a number from `a` on gives a free name, the first free
/// number from `a` on is found at or before it.
proof fn lemma_free_number_is_found(list: Seq<IndexView>, i: IndexView, table: Seq<char>, a: int, n: int)
    requires
        1 <= a <= n <= i32::MAX,
        !name_taken(list, numbered_name(i, table, n)),
    ensures
        free_number(list, i, table, a) is Some,
        a <= free_number(list, i, table, a)->0 <= n,
    decreases n - a,
{
    if a < n && name_taken(list, numbered_name(i, table, a)) {
        lemma_free_number_is_found(list, i, table, a + 1, n);
    }
}

/// An index without a name of its own always finds a name: among the
/// names with the numbers from one on there is a free one, as long as
/// the table has fewer indexes than there are numbers.
pub proof fn law_derived_name_is_found(t: TableView, i: IndexView)
    requires
        i.name.len() == 0,
        t.indexes is Some ==> t.indexes->0.len() < i32::MAX,
    ensures
        index_added(t, i) is Some,
{
    if t.indexes is Some {
        let list = t.indexes->0;
        if name_taken(list, full_name(i, t.name)) {
            let names = Seq::new(
                (list.len() + 1) as nat,
                |j: int| numbered_name(i, t.name, j + 1),
            );
            assert forall|a: int, b: int| 0 <= a < b < names.len() implies names[a]
                != names[b] by {
                lemma_numbers_tell_names_apart(i, t.name, a + 1, b + 1);
            }
            lemma_one_name_is_free(list, names);
            let k = choose|k: int| 0 <= k < names.len() && !name_taken(list, #[trigger] names[k]);
            assert(names[k] == numbered_name(i, t.name, k + 1));
            lemma_free_number_is_found(list, i, t.name, 1, k + 1);
        }
    }
}

/// A copy of a list of columns.
pub fn copy_columns(list: &Vec<Column>) -> (r: Vec<Column>)
    ensures
        columns_view(r@) == columns_view(list@),
{
    let mut out: Vec<Column> = Vec::new();
    let mut i: usize = 0;
    while i < list.len()
        invariant
            i <= list.len(),
            columns_view(out@) == columns_view(list@).take(i as int),
        decreases list.len() - i,
    {
        let ghost before = out@;
        let item = list[i].clone();
        out.push(item);
        proof {
            assert(columns_view(out@) =~= columns_view(before).push(item@));
            assert(columns_view(list@).take(i + 1) =~= columns_view(list@).take(i as int).push(
                list@[i as int]@,
            ));
        }
        i += 1;
    }
    assert(columns_view(list@).take(list.len() as int) =~= columns_view(list@));
    out
}

/// A copy of a list of indexes.
pub fn copy_indexes(list: &Vec<Index>) -> (r: Vec<Index>)
    ensures
        indexes_view(r@) == indexes_view(list@),
{
    let mut out: Vec<Index> = Vec::new();
    let mut i: usize = 0;
    while i < list.len()
        invariant
            i <= list.len(),
            indexes_view(out@) == indexes_view(list@).take(i as int),
        decreases list.len() - i,
    {
        let ghost before = out@;
        let item = list[i].clone();
        out.push(item);
        proof {
            assert(indexes_view(out@) =~= indexes_view(before).push(item@));
            assert(indexes_view(list@).take(i + 1) =~= indexes_view(list@).take(i as int).push(
                list@[i as int]@,
            ));
        }
        i += 1;
    }
    assert(indexes_view(list@).take(list.len() as int) =~= indexes_view(list@));
    out
}

fn is_name_taken(list: &Vec<Index>, name: &String) -> (r: bool)
    ensures
        r == name_taken(indexes_view(list@), name@),
{
    let mut k: usize = 0;
    while k < list.len()
        invariant
            k <= list.len(),
            forall|j: int| 0 <= j < k ==> indexes_view(list@)[j].name != name@,
        decreases list.len() - k,
    {
        if same_text(list[k].name.as_str(), name.as_str()) {
            assert(indexes_view(list@)[k as int].name == name@);
            return true;
        }
        k += 1;
    }
    false
}

/// The table without a name, without columns and with nothing set.
pub open spec fn blank_table() -> TableView {
    TableView {
        name: Seq::empty(),
        schema: None,
        comment: None,
        indexes: None,
        columns: Seq::empty(),
        from: None,
        recreate: None,
        trim_columns: false,
        trim_indexes: false,
    }
}

impl Default for TableSchema {
    fn default() -> (r: Self)
        ensures
            r@ == blank_table(),
    {
        let r = TableSchema {
            name: String::new(),
            schema: None,
            comment: None,
            indexes: None,
            columns: Vec::new(),
            from: None,
            recreate: None,
            trim_columns: false,
            trim_indexes: false,
        };
        assert(r@.columns =~= Seq::<ColumnView>::empty());
        r
    }
}

impl Clone for TableSchema {
    fn clone(&self) -> (r: Self)
        ensures
            r@ == self@,
    {
        TableSchema {
            name: self.name.clone(),
            schema: copy_text(&self.schema),
            comment: copy_text(&self.comment),
            indexes: match &self.indexes {
                Some(list) => Some(copy_indexes(list)),
                None => None,
            },
            columns: copy_columns(&self.columns),
            from: copy_text(&self.from),
            recreate: copy_text(&self.recreate),
            trim_columns: self.trim_columns,
            trim_indexes: self.trim_indexes,
        }
    }
}

impl TableSchema {
    /// The name of the table with its namespace in front, where it has one.
    pub fn name_with_schema(&self) -> (r: String)
        ensures
            r@ == qualified_name(self@),
    {
        match &self.schema {
            Some(schema) => {
                let mut out = schema.clone();
                out.append(".");
                out.append(self.name.as_str());
                out
            },
            None => self.name.clone(),
        }
    }

    /// The name of an index with the namespace of the table in front,
    /// where the table has one.
    pub fn index_name_with_schema(&self, index_name: &String) -> (r: String)
        ensures
            r@ == in_namespace(self@.schema, index_name@),
    {
        match &self.schema {
            Some(schema) => {
                let mut out = schema.clone();
                out.append(".");
                out.append(index_name.as_str());
                out
            },
            None => index_name.clone(),
        }
    }

    fn first_missing(&self, names: &Vec<String>) -> (r: Option<String>)
        ensures
            opt_view(r) == first_undeclared(self@.columns, views(names@)),
    {
        let ghost all = views(names@);
        let mut i: usize = 0;
        proof {
            assert(all.subrange(0, all.len() as int) =~= all);
        }
        while i < names.len()
            invariant
                i <= names.len(),
                all == views(names@),
                first_undeclared(self@.columns, all) == first_undeclared(
                    self@.columns,
                    all.subrange(i as int, all.len() as int),
                ),
            decreases names.len() - i,
        {
            proof {
                let rest = all.subrange(i as int, all.len() as int);
                assert(rest[0] == names@[i as int]@);
                assert(rest.drop_first() =~= all.subrange(i + 1, all.len() as int));
            }
            if self.find_column(&names[i]).is_none() {
                return Some(names[i].clone());
            }
            i += 1;
        }
        None
    }

    /// Checks that every column of every index is declared by the
    /// table. The error names the first one that is not.
    pub fn check_indexes_columns(&self) -> (r: Result<(), SchemaError>)
        ensures
            match undeclared_index_column(self@) {
                Some(name) => r matches Err(SchemaError::UndeclaredIndexColumn(n)) && n@ == name,
                None => r is Ok,
            },
    {
        match &self.indexes {
            Some(list) => {
                let ghost all = indexes_view(list@);
                let mut i: usize = 0;
                proof {
                    assert(all.subrange(0, all.len() as int) =~= all);
                }
                while i < list.len()
                    invariant
                        i <= list.len(),
                        all == indexes_view(list@),
                        undeclared_index_column(self@) == first_undeclared_in(self@.columns, all),
                        first_undeclared_in(self@.columns, all) == first_undeclared_in(
                            self@.columns,
                            all.subrange(i as int, all.len() as int),
                        ),
                    decreases list.len() - i,
                {
                    proof {
                        let rest = all.subrange(i as int, all.len() as int);
                        assert(rest[0] == list@[i as int]@);
                        assert(rest.drop_first() =~= all.subrange(i + 1, all.len() as int));
                    }
                    match self.first_missing(&list[i].columns) {
                        Some(name) => {
                            return Err(SchemaError::UndeclaredIndexColumn(name));
                        },
                        None => {},
                    }
                    i += 1;
                }
                Ok(())
            },
            None => Ok(()),
        }
    }

    /// The first column whose name in the database is exactly `name`.
    pub fn find_column(&self, name: &String) -> (r: Option<Column>)
        ensures
            match column_named(self@.columns, name@) {
                Some(c) => r is Some && r->0@ == c,
                None => r is None,
            },
    {
        let ghost all = columns_view(self.columns@);
        let mut i: usize = 0;
        proof {
            assert(all.subrange(0, all.len() as int) =~= all);
        }
        while i < self.columns.len()
            invariant
                i <= self.columns.len(),
                all == columns_view(self.columns@),
                column_named(all, name@) == column_named(
                    all.subrange(i as int, all.len() as int),
                    name@,
                ),
            decreases self.columns.len() - i,
        {
            proof {
                let rest = all.subrange(i as int, all.len() as int);
                assert(rest[0] == self.columns@[i as int]@);
                assert(rest.drop_first() =~= all.subrange(i + 1, all.len() as int));
            }
            let col = &self.columns[i];
            let found = match &col.column {
                Some(c) => same_text(c.as_str(), name.as_str()),
                None => same_text(col.name.as_str(), name.as_str()),
            };
            if found {
                return Some(col.clone());
            }
            i += 1;
        }
        None
    }

    /// Merges the attributes of `source` into the table.
    pub fn assign(&mut self, source: TableSchema) -> (r: Result<(), SchemaError>)
        ensures
            r is Ok,
            final(self)@ == merged(old(self)@, source@),
    {
        if self.name.as_str().is_empty() {
            self.name = source.name.clone();
        }
        self.comment = copy_first(&self.comment, &source.comment);
        self.schema = copy_first(&self.schema, &source.schema);
        self.recreate = copy_first(&self.recreate, &source.recreate);
        self.from = copy_first(&self.from, &source.from);
        self.trim_columns = self.trim_columns || source.trim_columns;
        self.trim_indexes = self.trim_indexes || source.trim_indexes;
        match &source.indexes {
            Some(added) => {
                if added.len() > 0 {
                    let mut list: Vec<Index> = match self.indexes.take() {
                        Some(own) => own,
                        None => Vec::new(),
                    };
                    let ghost own = indexes_view(list@);
                    let mut i: usize = 0;
                    while i < added.len()
                        invariant
                            i <= added.len(),
                            indexes_view(list@) == own + indexes_view(added@).take(i as int),
                        decreases added.len() - i,
                    {
                        let ghost before = list@;
                        let item = added[i].clone();
                        list.push(item);
                        proof {
                            assert(indexes_view(list@) =~= indexes_view(before).push(item@));
                            assert(indexes_view(added@).take(i + 1) =~= indexes_view(added@).take(
                                i as int,
                            ).push(added@[i as int]@));
                            assert(indexes_view(list@) =~= own + indexes_view(added@).take(i + 1));
                        }
                        i += 1;
                    }
                    proof {
                        assert(indexes_view(added@).take(added.len() as int) =~= indexes_view(
                            added@,
                        ));
                        if old(self)@.indexes is None {
                            assert(own + indexes_view(added@) =~= indexes_view(added@));
                        }
                    }
                    self.indexes = Some(list);
                } else {
                    proof {
                        if old(self)@.indexes is Some {
                            assert(old(self)@.indexes->0 + indexes_view(added@) =~= old(
                                self,
                            )@.indexes->0);
                        }
                    }
                }
            },
            None => {},
        }
        Ok(())
    }

    /// Adds an index under its full name. Where that name is taken, an
    /// index without a name of its own gets the first free name with a
    /// number in it; one with a name of its own is refused.
    #[verifier::loop_isolation(false)]
    pub fn add_index(&mut self, index: Index) -> (r: Result<(), SchemaError>)
        ensures
            match index_added(old(self)@, index@) {
                Some(t) => r is Ok && final(self)@ == t,
                None => r matches Err(SchemaError::DuplicateIndexName(n)) && n@ == full_name(
                    index@,
                    old(self)@.name,
                ) && final(self)@ == old(self)@,
            },
    {
        let mut item = index;
        let ghost given = item@;
        let (name, setted) = item.get_name(&self.name);
        let mut list: Vec<Index> = match self.indexes.take() {
            Some(own) => own,
            None => {
                item.name = name;
                let mut fresh: Vec<Index> = Vec::new();
                fresh.push(item);
                proof {
                    assert(indexes_view(fresh@) =~= seq![
                        IndexView { name: full_name(given, old(self)@.name), ..given },
                    ]);
                }
                self.indexes = Some(fresh);
                return Ok(());
            },
        };
        let ghost own = indexes_view(list@);
        if !is_name_taken(&list, &name) {
            item.name = name;
            let ghost before = list@;
            list.push(item);
            proof {
                assert(indexes_view(list@) =~= own.push(
                    IndexView { name: full_name(given, old(self)@.name), ..given },
                ));
            }
            self.indexes = Some(list);
            return Ok(());
        }
        if setted {
            self.indexes = Some(list);
            return Err(SchemaError::DuplicateIndexName(name));
        }
        let mut n: i32 = 1;
        loop
            invariant
                1 <= n <= i32::MAX,
                own == indexes_view(list@),
                item@ == given,
                given.name.len() == 0,
                *self == (TableSchema { indexes: None, ..*old(self) }),
                free_number(own, given, self.name@, 1) == free_number(own, given, self.name@, n as int),
            decreases i32::MAX - n,
        {
            let (candidate, _) = item.get_name_with_index(&self.name, n);
            if !is_name_taken(&list, &candidate) {
                item.name = candidate;
                list.push(item);
                proof {
                    assert(indexes_view(list@) =~= own.push(
                        IndexView { name: numbered_name(given, old(self)@.name, n as int), ..given },
                    ));
                }
                self.indexes = Some(list);
                return Ok(());
            }
            if n == i32::MAX {
                self.indexes = Some(list);
                return Err(SchemaError::DuplicateIndexName(name));
            }
            n += 1;
        }
    }
}

} // verus!
