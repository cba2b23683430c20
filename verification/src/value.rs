//! The values that go with the placeholders of a statement.

use vstd::prelude::*;
use vstd::string::*;
use chrono::NaiveDateTime;

verus! {

/// A date and time of the `chrono` crate. The library carries such a
/// value from the caller to the statement and never looks inside.
#[verifier::external_type_specification]
#[verifier::external_body]
pub struct ExNaiveDateTime(NaiveDateTime);

/// A value for one placeholder, or a list of values for several. An
/// absent value stands for SQL `NULL`. A floating-point number is held
/// by its bits, as `to_bits` gives them.
#[derive(Debug, PartialEq)]
pub enum Value {
    Bool(Option<bool>),
    Binary(Option<Vec<u8>>),
    Short(Option<i16>),
    Int(Option<i32>),
    Long(Option<i64>),
    Float(Option<u32>),
    Double(Option<u64>),
    Text(Option<String>),
    ChronoDate(Option<NaiveDateTime>),
    Array(Vec<Value>),
}

/// A value as plain values.
pub enum ValueView {
    Bool(Option<bool>),
    Binary(Option<Seq<u8>>),
    Short(Option<i16>),
    Int(Option<i32>),
    Long(Option<i64>),
    Float(Option<u32>),
    Double(Option<u64>),
    Text(Option<Seq<char>>),
    ChronoDate(Option<NaiveDateTime>),
    Array(Seq<ValueView>),
}

/// The view of a value.
pub open spec fn view_of(v: Value) -> ValueView
    decreases v, 0int,
{
    match v {
        Value::Bool(x) => ValueView::Bool(x),
        Value::Binary(x) => ValueView::Binary(
            match x {
                Some(bytes) => Some(bytes@),
                None => None,
            },
        ),
        Value::Short(x) => ValueView::Short(x),
        Value::Int(x) => ValueView::Int(x),
        Value::Long(x) => ValueView::Long(x),
        Value::Float(x) => ValueView::Float(x),
        Value::Double(x) => ValueView::Double(x),
        Value::Text(x) => ValueView::Text(
            match x {
                Some(text) => Some(text@),
                None => None,
            },
        ),
        Value::ChronoDate(x) => ValueView::ChronoDate(x),
        Value::Array(items) => ValueView::Array(views_of_first(items@, items@.len() as int)),
    }
}

/// The views of the first `n` of `items`.
pub open spec fn views_of_first(items: Seq<Value>, n: int) -> Seq<ValueView>
    decreases items, n,
{
    if n <= 0 || n > items.len() {
        Seq::empty()
    } else {
        views_of_first(items, n - 1).push(view_of(items[n - 1]))
    }
}

impl View for Value {
    type V = ValueView;

    open spec fn view(&self) -> ValueView {
        view_of(*self)
    }
}

/// The views of a list of values.
pub open spec fn values_view(list: Seq<Value>) -> Seq<ValueView> {
    list.map_values(|v: Value| v@)
}

/// How many placeholders a value fills in a list: as many as it has
/// items where it is a list, else one.
pub open spec fn value_len(v: ValueView) -> nat {
    match v {
        ValueView::Array(items) => items.len(),
        _ => 1,
    }
}

/// The values that a value binds, in order: itself, or, for a list,
/// what its items bind, one after another.
pub open spec fn bound_values(v: ValueView) -> Seq<ValueView>
    decreases v,
{
    match v {
        ValueView::Array(items) => bound_by_first(items, items.len() as int),
        _ => seq![v],
    }
}

/// What the first `n` of `items` bind, one after another.
pub open spec fn bound_by_first(items: Seq<ValueView>, n: int) -> Seq<ValueView>
    decreases items, n,
{
    if n <= 0 || n > items.len() {
        Seq::empty()
    } else {
        bound_by_first(items, n - 1) + bound_values(items[n - 1])
    }
}

/// Whether a value is no list.
pub open spec fn is_scalar(v: ValueView) -> bool {
    !(v is Array)
}

/// Whether a value is a list of values that are no lists.
pub open spec fn is_flat_list(v: ValueView) -> bool {
    match v {
        ValueView::Array(items) => forall|i: int| 0 <= i < items.len() ==> is_scalar(#[trigger] items[i]),
        _ => false,
    }
}

/// A statement with the values for its placeholders, in the order of
/// the placeholders.
#[derive(Debug, PartialEq)]
pub struct Query {
    pub sql: String,
    pub args: Vec<Value>,
}

/// A statement and its values as plain values.
pub struct QueryView {
    pub sql: Seq<char>,
    pub args: Seq<ValueView>,
}

impl View for Query {
    type V = QueryView;

    open spec fn view(&self) -> QueryView {
        QueryView { sql: self.sql@, args: values_view(self.args@) }
    }
}

/// A column name and the value for it.
#[derive(Debug)]
pub struct Pair {
    pub name: String,
    pub value: Value,
}

/// A pair as plain values.
pub struct PairView {
    pub name: Seq<char>,
    pub value: ValueView,
}

impl View for Pair {
    type V = PairView;

    open spec fn view(&self) -> PairView {
        PairView { name: self.name@, value: self.value@ }
    }
}

/// The views of a list of pairs.
pub open spec fn pairs_view(list: Seq<Pair>) -> Seq<PairView> {
    list.map_values(|p: Pair| p@)
}

proof fn lemma_views_of_first(items: Seq<Value>, n: int)
    requires
        0 <= n <= items.len(),
    ensures
        views_of_first(items, n).len() == n,
        forall|i: int| 0 <= i < n ==> (#[trigger] views_of_first(items, n)[i]) == items[i]@,
    decreases n,
{
    if n > 0 {
        lemma_views_of_first(items, n - 1);
    }
}

/// The view of a list is the list of the views of its items.
pub proof fn lemma_view_of_list(v: Value)
    requires
        v is Array,
    ensures
        v@ is Array,
        v@->Array_0.len() == v->Array_0@.len(),
        forall|i: int| 0 <= i < v->Array_0@.len() ==> (#[trigger] v@->Array_0[i]) == v->Array_0@[i]@,
{
    lemma_views_of_first(v->Array_0@, v->Array_0@.len() as int);
}

/// A list of flat values binds each of them.
pub proof fn lemma_flat_list_binds_each(items: Seq<ValueView>, n: int)
    requires
        0 <= n <= items.len(),
        forall|i: int| 0 <= i < items.len() ==> is_scalar(#[trigger] items[i]),
    ensures
        bound_by_first(items, n) == items.take(n),
    decreases n,
{
    if n > 0 {
        lemma_flat_list_binds_each(items, n - 1);
        assert(bound_values(items[n - 1]) == seq![items[n - 1]]);
        assert(items.take(n) =~= items.take(n - 1) + seq![items[n - 1]]);
    } else {
        assert(items.take(0) =~= Seq::<ValueView>::empty());
    }
}

impl Clone for Value {
    fn clone(&self) -> (r: Self)
        ensures
            r@ == self@,
        decreases self,
    {
        match self {
            Value::Bool(v) => Value::Bool(*v),
            Value::Binary(v) => match v {
                Some(bytes) => {
                    let copy = bytes.clone();
                    assert(copy@ =~= bytes@);
                    Value::Binary(Some(copy))
                },
                None => Value::Binary(None),
            },
            Value::Short(v) => Value::Short(*v),
            Value::Int(v) => Value::Int(*v),
            Value::Long(v) => Value::Long(*v),
            Value::Float(v) => Value::Float(*v),
            Value::Double(v) => Value::Double(*v),
            Value::Text(v) => match v {
                Some(text) => Value::Text(Some(text.clone())),
                None => Value::Text(None),
            },
            Value::ChronoDate(v) => Value::ChronoDate(*v),
            Value::Array(items) => {
                let mut out: Vec<Value> = Vec::new();
                let mut i: usize = 0;
                while i < items.len()
                    invariant
                        i <= items.len(),
                        out.len() == i,
                        *self == Value::Array(*items),
                        forall|j: int| 0 <= j < i ==> out@[j]@ == items@[j]@,
                    decreases items.len() - i,
                {
                    let item = &items[i];
                    proof {
                        assert(self->Array_0 == *items);
                        assert(decreases_to!(*self => self->Array_0));
                        assert(decreases_to!(self->Array_0 => self->Array_0@));
                        assert(decreases_to!(self->Array_0@ => self->Array_0@[i as int]));
                    }
                    out.push(item.clone());
                    i += 1;
                }
                let r = Value::Array(out);
                proof {
                    lemma_view_of_list(r);
                    lemma_view_of_list(*self);
                    assert(r@->Array_0 =~= self@->Array_0);
                }
                r
            },
        }
    }
}

/// Whether a value stands for SQL `NULL`: it is of some kind and absent.
pub open spec fn is_null(v: ValueView) -> bool {
    match v {
        ValueView::Bool(x) => x is None,
        ValueView::Binary(x) => x is None,
        ValueView::Short(x) => x is None,
        ValueView::Int(x) => x is None,
        ValueView::Long(x) => x is None,
        ValueView::Float(x) => x is None,
        ValueView::Double(x) => x is None,
        ValueView::Text(x) => x is None,
        ValueView::ChronoDate(x) => x is None,
        ValueView::Array(items) => false,
    }
}

impl Value {
    /// Whether the value stands for SQL `NULL`.
    pub fn is_null(&self) -> (r: bool)
        ensures
            r == is_null(self@),
    {
        match self {
            Value::Bool(x) => x.is_none(),
            Value::Binary(x) => x.is_none(),
            Value::Short(x) => x.is_none(),
            Value::Int(x) => x.is_none(),
            Value::Long(x) => x.is_none(),
            Value::Float(x) => x.is_none(),
            Value::Double(x) => x.is_none(),
            Value::Text(x) => x.is_none(),
            Value::ChronoDate(x) => x.is_none(),
            Value::Array(_) => false,
        }
    }

    /// How many placeholders the value fills in a list.
    pub fn len(&self) -> (r: usize)
        ensures
            r == value_len(self@),
    {
        proof {
            if self is Array {
                lemma_view_of_list(*self);
            }
        }
        match self {
            Value::Array(ary) => ary.len(),
            _ => 1,
        }
    }

    /// Adds the value to the values of a statement; a list adds what
    /// its items add, in order.
    pub fn bind_to_query(&self, query: Query) -> (r: Query)
        ensures
            r@.sql == query@.sql,
            r@.args == query@.args + bound_values(self@),
        decreases self,
    {
        match self {
            Value::Array(ary) => {
                let mut qry = query;
                let mut i: usize = 0;
                let ghost items = self@->Array_0;
                proof {
                    lemma_view_of_list(*self);
                    assert(qry@.args =~= query@.args + bound_by_first(items, 0));
                }
                while i < ary.len()
                    invariant
                        i <= ary.len(),
                        *self == Value::Array(*ary),
                        items == self@->Array_0,
                        items.len() == ary.len(),
                        forall|j: int| 0 <= j < ary.len() ==> (#[trigger] items[j]) == ary@[j]@,
                        qry@.sql == query@.sql,
                        qry@.args == query@.args + bound_by_first(items, i as int),
                    decreases ary.len() - i,
                {
                    let item = &ary[i];
                    proof {
                        assert(self->Array_0 == *ary);
                        assert(decreases_to!(*self => self->Array_0));
                        assert(decreases_to!(self->Array_0 => self->Array_0@));
                        assert(decreases_to!(self->Array_0@ => self->Array_0@[i as int]));
                        assert(items[i as int] == item@);
                    }
                    let ghost before = qry@.args;
                    qry = item.bind_to_query(qry);
                    proof {
                        assert(qry@.args =~= query@.args + bound_by_first(items, i + 1));
                    }
                    i += 1;
                }
                qry
            },
            _ => {
                let mut qry = query;
                let ghost before = qry.args@;
                let copy = self.clone();
                qry.args.push(copy);
                proof {
                    assert(values_view(qry.args@) =~= values_view(before).push(copy@));
                    assert(bound_values(self@) =~= seq![self@]);
                    assert(qry@.args =~= query@.args + bound_values(self@));
                }
                qry
            },
        }
    }
}

impl Clone for Pair {
    fn clone(&self) -> (r: Self)
        ensures
            r@ == self@,
    {
        Pair { name: self.name.clone(), value: self.value.clone() }
    }
}

impl Clone for Query {
    fn clone(&self) -> (r: Self)
        ensures
            r@ == self@,
    {
        let mut args: Vec<Value> = Vec::new();
        let mut i: usize = 0;
        while i < self.args.len()
            invariant
                i <= self.args.len(),
                values_view(args@) == values_view(self.args@).take(i as int),
            decreases self.args.len() - i,
        {
            let ghost before = args@;
            let item = self.args[i].clone();
            args.push(item);
            proof {
                assert(values_view(args@) =~= values_view(before).push(item@));
                assert(values_view(args@) =~= values_view(self.args@).take(i + 1));
            }
            i += 1;
        }
        assert(values_view(self.args@).take(self.args.len() as int) =~= values_view(self.args@));
        Query { sql: self.sql.clone(), args }
    }
}

impl Pair {
    /// Adds the value of the pair to the values of a statement.
    pub fn bind_to_query(&self, query: Query) -> (r: Query)
        ensures
            r@.sql == query@.sql,
            r@.args == query@.args + bound_values(self@.value),
    {
        self.value.bind_to_query(query)
    }
}

} // verus!
