//! Filter conditions and the `WHERE` clause they turn into.
//!
//! A condition is a tree: a leaf compares one column with a value, and
//! an inner node joins two conditions by `and` or `or`. Rendering walks
//! the tree from left to right and numbers the placeholders as it goes;
//! binding walks it in the same order and hands over the values.

use vstd::prelude::*;
use vstd::string::*;
use crate::quote::{quoted, Quoter, QuoterView};
use crate::text::{join, join_strings, nat_decimal, same_text, usize_to_string, views};
use crate::value::{bound_values, is_flat_list, is_scalar, lemma_flat_list_binds_each, value_len, Pair, Query, ValueView};

verus! {

/// How a column is compared with a value.
#[derive(PartialEq, Eq, Structural, Debug, Clone, Copy)]
pub enum Operator {
    /// `=`
    Eq,
    /// `<>`
    Neq,
    /// `>`
    Gt,
    /// `>=`
    Ge,
    /// `<`
    Lt,
    /// `<=`
    Le,
    /// `in`, with a list of values
    In,
    /// `like`
    Like,
    /// `is null`, without a value
    IsNull,
    /// `is not null`, without a value
    IsNotNull,
}

/// The name of an operator.
pub open spec fn operator_name(op: Operator) -> Seq<char> {
    match op {
        Operator::Eq => "eq"@,
        Operator::Neq => "neq"@,
        Operator::Gt => "gt"@,
        Operator::Ge => "ge"@,
        Operator::Lt => "lt"@,
        Operator::Le => "le"@,
        Operator::In => "in"@,
        Operator::Like => "like"@,
        Operator::IsNull => "is_null"@,
        Operator::IsNotNull => "is_not_null"@,
    }
}

/// The operator of a name; `Eq` for a text that names none.
pub open spec fn operator_named(name: Seq<char>) -> Operator {
    if name == "eq"@ {
        Operator::Eq
    } else if name == "neq"@ {
        Operator::Neq
    } else if name == "gt"@ {
        Operator::Gt
    } else if name == "ge"@ {
        Operator::Ge
    } else if name == "lt"@ {
        Operator::Lt
    } else if name == "le"@ {
        Operator::Le
    } else if name == "in"@ {
        Operator::In
    } else if name == "like"@ {
        Operator::Like
    } else if name == "is_null"@ {
        Operator::IsNull
    } else if name == "is_not_null"@ {
        Operator::IsNotNull
    } else {
        Operator::Eq
    }
}

/// An operator as SQL writes it.
pub open spec fn operator_sql(op: Operator) -> Seq<char> {
    match op {
        Operator::Eq => "="@,
        Operator::Neq => "<>"@,
        Operator::Gt => ">"@,
        Operator::Ge => ">="@,
        Operator::Lt => "<"@,
        Operator::Le => "<="@,
        Operator::In => "in"@,
        Operator::Like => "like"@,
        Operator::IsNull => "is null"@,
        Operator::IsNotNull => "is not null"@,
    }
}

/// Whether an operator takes no value.
pub open spec fn takes_no_value(op: Operator) -> bool {
    op is IsNull || op is IsNotNull
}

/// A condition over the columns of a table.
#[derive(Debug)]
pub enum Condition {
    /// One column compared with one value.
    Condition(Pair, Operator),
    And(Box<Condition>, Box<Condition>),
    Or(Box<Condition>, Box<Condition>),
}

/// A condition as plain values.
pub enum CondView {
    Leaf { name: Seq<char>, value: ValueView, op: Operator },
    And(Box<CondView>, Box<CondView>),
    Or(Box<CondView>, Box<CondView>),
}

/// The view of a condition.
pub open spec fn view_of(c: Condition) -> CondView
    decreases c,
{
    match c {
        Condition::Condition(p, o) => CondView::Leaf { name: p.name@, value: p.value@, op: o },
        Condition::And(l, r) => CondView::And(Box::new(view_of(*l)), Box::new(view_of(*r))),
        Condition::Or(l, r) => CondView::Or(Box::new(view_of(*l)), Box::new(view_of(*r))),
    }
}

impl View for Condition {
    type V = CondView;

    open spec fn view(&self) -> CondView {
        view_of(*self)
    }
}

/// The placeholder with the number `index`.
pub open spec fn placeholder(index: int) -> Seq<char> {
    "$"@ + nat_decimal(index as nat)
}

/// The `n` placeholders from the number `first` on.
pub open spec fn placeholder_list(first: int, n: nat) -> Seq<Seq<char>> {
    Seq::new(n, |j: int| placeholder(first + j))
}

/// How many placeholders a leaf takes: none for an operator without a
/// value, one for each item of the value for `in`, else one.
pub open spec fn leaf_slots(op: Operator, value: ValueView) -> nat {
    if takes_no_value(op) {
        0
    } else if op is In {
        value_len(value)
    } else {
        1
    }
}

/// How many placeholders a condition takes.
pub open spec fn slots(c: CondView) -> nat
    decreases c,
{
    match c {
        CondView::Leaf { name, value, op } => leaf_slots(op, value),
        CondView::And(l, r) => slots(*l) + slots(*r),
        CondView::Or(l, r) => slots(*l) + slots(*r),
    }
}

/// A leaf as SQL, its placeholders numbered from `first` on.
pub open spec fn rendered_leaf(
    q: QuoterView,
    name: Seq<char>,
    op: Operator,
    value: ValueView,
    first: int,
) -> Seq<char> {
    if takes_no_value(op) {
        quoted(q, name) + " "@ + operator_sql(op)
    } else if op is In {
        quoted(q, name) + " "@ + operator_sql(op) + " ("@ + join(
            placeholder_list(first, value_len(value)),
            ","@,
        ) + ")"@
    } else {
        quoted(q, name) + " "@ + operator_sql(op) + " "@ + placeholder(first)
    }
}

/// A text in round brackets where `wrap` holds, else as it is.
pub open spec fn in_brackets(wrap: bool, text: Seq<char>) -> Seq<char> {
    if wrap {
        "("@ + text + ")"@
    } else {
        text
    }
}

/// A condition as SQL, its placeholders numbered from `first` on. A
/// child stands in brackets exactly where it joins by the other word
/// than its parent.
pub open spec fn rendered(q: QuoterView, c: CondView, first: int) -> Seq<char>
    decreases c,
{
    match c {
        CondView::Leaf { name, value, op } => rendered_leaf(q, name, op, value, first),
        CondView::And(l, r) => in_brackets(*l is Or, rendered(q, *l, first)) + " and "@
            + in_brackets(*r is Or, rendered(q, *r, first + slots(*l))),
        CondView::Or(l, r) => in_brackets(*l is And, rendered(q, *l, first)) + " or "@
            + in_brackets(*r is And, rendered(q, *r, first + slots(*l))),
    }
}

/// The values that a condition binds, in the order of its leaves from
/// left to right. A leaf whose operator takes no value binds none.
pub open spec fn bound(c: CondView) -> Seq<ValueView>
    decreases c,
{
    match c {
        CondView::Leaf { name, value, op } => if takes_no_value(op) {
            Seq::empty()
        } else {
            bound_values(value)
        },
        CondView::And(l, r) => bound(*l) + bound(*r),
        CondView::Or(l, r) => bound(*l) + bound(*r),
    }
}

/// The leaves of a condition from left to right.
pub open spec fn leaves(c: CondView) -> Seq<CondView>
    decreases c,
{
    match c {
        CondView::Leaf { name, value, op } => seq![c],
        CondView::And(l, r) => leaves(*l) + leaves(*r),
        CondView::Or(l, r) => leaves(*l) + leaves(*r),
    }
}

/// What the first `n` of a list of leaves bind, one after another.
pub open spec fn bound_by_leaves(list: Seq<CondView>, n: int) -> Seq<ValueView>
    decreases n,
{
    if n <= 0 || n > list.len() {
        Seq::empty()
    } else {
        bound_by_leaves(list, n - 1) + bound(list[n - 1])
    }
}

/// Whether every leaf holds a value of the shape that its operator
/// takes: a list of plain values for `in`, one plain value for an
/// operator that compares.
pub open spec fn well_formed(c: CondView) -> bool
    decreases c,
{
    match c {
        CondView::Leaf { name, value, op } => if takes_no_value(op) {
            true
        } else if op is In {
            is_flat_list(value)
        } else {
            is_scalar(value)
        },
        CondView::And(l, r) => well_formed(*l) && well_formed(*r),
        CondView::Or(l, r) => well_formed(*l) && well_formed(*r),
    }
}

/// The condition of a query, if it has one.
#[derive(Debug)]
pub struct Where {
    cond: Option<Box<Condition>>,
}

impl View for Where {
    type V = Option<CondView>;

    closed spec fn view(&self) -> Option<CondView> {
        match self.cond {
            Some(c) => Some(c@),
            None => None,
        }
    }
}

/// A `WHERE` clause as SQL; empty where there is no condition.
pub open spec fn rendered_where(q: QuoterView, w: Option<CondView>, first: int) -> Seq<char> {
    match w {
        Some(c) => rendered(q, c, first),
        None => Seq::empty(),
    }
}

/// How many placeholders a `WHERE` clause takes.
pub open spec fn where_slots(w: Option<CondView>) -> nat {
    match w {
        Some(c) => slots(c),
        None => 0,
    }
}

/// The values that a `WHERE` clause binds.
pub open spec fn where_bound(w: Option<CondView>) -> Seq<ValueView> {
    match w {
        Some(c) => bound(c),
        None => Seq::empty(),
    }
}

/// Two conditions joined by `and`; one of them where the other is missing.
pub open spec fn joined_and(a: Option<CondView>, b: Option<CondView>) -> Option<CondView> {
    match (a, b) {
        (Some(x), Some(y)) => Some(CondView::And(Box::new(x), Box::new(y))),
        (Some(x), None) => Some(x),
        (None, y) => y,
    }
}

/// Two conditions joined by `or`; one of them where the other is missing.
pub open spec fn joined_or(a: Option<CondView>, b: Option<CondView>) -> Option<CondView> {
    match (a, b) {
        (Some(x), Some(y)) => Some(CondView::Or(Box::new(x), Box::new(y))),
        (Some(x), None) => Some(x),
        (None, y) => y,
    }
}

/// The name of an operator is the name of no other: the name leads
/// back to the operator.
pub proof fn law_operator_names_are_distinct(op: Operator)
    ensures
        operator_named(operator_name(op)) == op,
{
    reveal_strlit("eq");
    reveal_strlit("neq");
    reveal_strlit("gt");
    reveal_strlit("ge");
    reveal_strlit("lt");
    reveal_strlit("le");
    reveal_strlit("in");
    reveal_strlit("like");
    reveal_strlit("is_null");
    reveal_strlit("is_not_null");
    let name = operator_name(op);
    match op {
        Operator::Eq => {},
        Operator::Neq => {
            assert(name.len() == 3);
        },
        Operator::Gt => {
            assert(name[0] == 'g' && name[1] == 't');
        },
        Operator::Ge => {
            assert(name[0] == 'g' && name[1] == 'e');
        },
        Operator::Lt => {
            assert(name[0] == 'l' && name[1] == 't');
        },
        Operator::Le => {
            assert(name[0] == 'l' && name[1] == 'e');
        },
        Operator::In => {
            assert(name[0] == 'i' && name[1] == 'n');
        },
        Operator::Like => {
            assert(name.len() == 4);
        },
        Operator::IsNull => {
            assert(name.len() == 7);
        },
        Operator::IsNotNull => {
            assert(name.len() == 11);
        },
    }
}

/// An `in` leaf over a list of `n` values takes the `n` placeholders
/// from `first` on, written `$first`, `$first+1`, and so on with commas
/// between, and the numbering goes on at `first + n`.
pub proof fn law_in_leaf_placeholders(q: QuoterView, name: Seq<char>, items: Seq<ValueView>, first: nat)
    ensures
        ({
            let leaf = CondView::Leaf { name, value: ValueView::Array(items), op: Operator::In };
            &&& slots(leaf) == items.len()
            &&& first + slots(leaf) == first + items.len()
            &&& rendered(q, leaf, first as int) == quoted(q, name) + " in ("@ + join(
                placeholder_list(first as int, items.len()),
                ","@,
            ) + ")"@
            &&& placeholder_list(first as int, items.len()).len() == items.len()
            &&& forall|j: int|
                0 <= j < items.len() ==> (#[trigger] placeholder_list(first as int, items.len())[j])
                    == "$"@ + nat_decimal((first + j) as nat)
        }),
{
    let leaf = CondView::Leaf { name, value: ValueView::Array(items), op: Operator::In };
    reveal_strlit(" ");
    reveal_strlit("in");
    reveal_strlit(" (");
    reveal_strlit(" in (");
    assert(" "@ + "in"@ + " ("@ =~= " in ("@);
    assert(rendered(q, leaf, first as int) =~= quoted(q, name) + " in ("@ + join(
        placeholder_list(first as int, items.len()),
        ","@,
    ) + ")"@);
}

/// What the leaves of two lists bind is what the first list binds and
/// then what the second binds.
proof fn lemma_bound_by_leaves_of_two(a: Seq<CondView>, b: Seq<CondView>, n: int)
    requires
        0 <= n <= b.len(),
    ensures
        bound_by_leaves(a + b, a.len() + n) == bound_by_leaves(a, a.len() as int) + bound_by_leaves(
            b,
            n,
        ),
    decreases n,
{
    if n == 0 {
        lemma_bound_by_leaves_prefix(a, b, a.len() as int);
        assert(bound_by_leaves(a, a.len() as int) + bound_by_leaves(b, 0) =~= bound_by_leaves(
            a,
            a.len() as int,
        ));
    } else {
        lemma_bound_by_leaves_of_two(a, b, n - 1);
        assert((a + b)[a.len() + n - 1] == b[n - 1]);
        assert(bound_by_leaves(a + b, a.len() + n) =~= bound_by_leaves(a, a.len() as int)
            + bound_by_leaves(b, n));
    }
}

proof fn lemma_bound_by_leaves_prefix(a: Seq<CondView>, b: Seq<CondView>, n: int)
    requires
        0 <= n <= a.len(),
    ensures
        bound_by_leaves(a + b, n) == bound_by_leaves(a, n),
    decreases n,
{
    if n > 0 {
        lemma_bound_by_leaves_prefix(a, b, n - 1);
        assert((a + b)[n - 1] == a[n - 1]);
    }
}

/// Brackets stand round the other connective only. In `(a or b) and c`
/// the `or` stands in brackets, and `c` stands bare unless it is an `or`
/// itself; the numbering of the placeholders runs through from left to
/// right.
pub proof fn law_brackets_round_the_other_connective(
    q: QuoterView,
    a: CondView,
    b: CondView,
    c: CondView,
    first: int,
)
    ensures
        ({
            let either = CondView::Or(Box::new(a), Box::new(b));
            let both = CondView::And(Box::new(either), Box::new(c));
            &&& rendered(q, both, first) == "("@ + rendered(q, either, first) + ")"@ + " and "@
                + in_brackets(c is Or, rendered(q, c, first + slots(a) + slots(b)))
            &&& !(c is Or) ==> rendered(q, both, first) == "("@ + rendered(q, either, first) + ")"@
                + " and "@ + rendered(q, c, first + slots(a) + slots(b))
            &&& rendered(q, either, first) == in_brackets(a is And, rendered(q, a, first)) + " or "@
                + in_brackets(b is And, rendered(q, b, first + slots(a)))
            &&& slots(both) == slots(a) + slots(b) + slots(c)
        }),
{
    let either = CondView::Or(Box::new(a), Box::new(b));
    let both = CondView::And(Box::new(either), Box::new(c));
    assert(slots(either) == slots(a) + slots(b));
    assert(rendered(q, both, first) == in_brackets(true, rendered(q, either, first)) + " and "@
        + in_brackets(c is Or, rendered(q, c, first + slots(either))));
}

/// Binding follows the leaves: whatever the nesting, a condition binds
/// what its leaves bind, taken from left to right.
pub proof fn law_binding_follows_leaves(c: CondView)
    ensures
        bound(c) == bound_by_leaves(leaves(c), leaves(c).len() as int),
    decreases c,
{
    match c {
        CondView::Leaf { name, value, op } => {
            assert(bound_by_leaves(leaves(c), 0) =~= Seq::<ValueView>::empty());
            assert(leaves(c)[0] == c);
            assert(bound_by_leaves(leaves(c), 1) =~= bound(c));
        },
        CondView::And(l, r) => {
            law_binding_follows_leaves(*l);
            law_binding_follows_leaves(*r);
            lemma_bound_by_leaves_of_two(leaves(*l), leaves(*r), leaves(*r).len() as int);
        },
        CondView::Or(l, r) => {
            law_binding_follows_leaves(*l);
            law_binding_follows_leaves(*r);
            lemma_bound_by_leaves_of_two(leaves(*l), leaves(*r), leaves(*r).len() as int);
        },
    }
}

/// Binding and rendering stay in step: a well-formed condition binds
/// exactly as many values as it takes placeholders, so the values of the
/// right child of a node begin where its placeholders begin.
pub proof fn law_binding_matches_rendering(c: CondView)
    requires
        well_formed(c),
    ensures
        bound(c).len() == slots(c),
    decreases c,
{
    match c {
        CondView::Leaf { name, value, op } => {
            if !takes_no_value(op) && op is In {
                let items = value->Array_0;
                lemma_flat_list_binds_each(items, items.len() as int);
            }
        },
        CondView::And(l, r) => {
            law_binding_matches_rendering(*l);
            law_binding_matches_rendering(*r);
        },
        CondView::Or(l, r) => {
            law_binding_matches_rendering(*l);
            law_binding_matches_rendering(*r);
        },
    }
}

impl Operator {
    /// The name of the operator.
    pub fn to_string(&self) -> (r: String)
        ensures
            r@ == operator_name(*self),
    {
        match self {
            Operator::Eq => String::from_str("eq"),
            Operator::Neq => String::from_str("neq"),
            Operator::Gt => String::from_str("gt"),
            Operator::Ge => String::from_str("ge"),
            Operator::Lt => String::from_str("lt"),
            Operator::Le => String::from_str("le"),
            Operator::In => String::from_str("in"),
            Operator::Like => String::from_str("like"),
            Operator::IsNull => String::from_str("is_null"),
            Operator::IsNotNull => String::from_str("is_not_null"),
        }
    }

    /// The operator of a name; `Eq` for a text that names none.
    pub fn resolve(name: String) -> (r: Self)
        ensures
            r == operator_named(name@),
    {
        let n = name.as_str();
        if same_text(n, "eq") {
            Operator::Eq
        } else if same_text(n, "neq") {
            Operator::Neq
        } else if same_text(n, "gt") {
            Operator::Gt
        } else if same_text(n, "ge") {
            Operator::Ge
        } else if same_text(n, "lt") {
            Operator::Lt
        } else if same_text(n, "le") {
            Operator::Le
        } else if same_text(n, "in") {
            Operator::In
        } else if same_text(n, "like") {
            Operator::Like
        } else if same_text(n, "is_null") {
            Operator::IsNull
        } else if same_text(n, "is_not_null") {
            Operator::IsNotNull
        } else {
            Operator::Eq
        }
    }

    /// Whether the operator takes no value.
    pub fn is_not_param(&self) -> (r: bool)
        ensures
            r == takes_no_value(*self),
    {
        match self {
            Operator::IsNull | Operator::IsNotNull => true,
            _ => false,
        }
    }

    /// The operator as SQL writes it.
    pub fn sql(&self) -> (r: String)
        ensures
            r@ == operator_sql(*self),
    {
        match self {
            Operator::Eq => String::from_str("="),
            Operator::Neq => String::from_str("<>"),
            Operator::Gt => String::from_str(">"),
            Operator::Ge => String::from_str(">="),
            Operator::Lt => String::from_str("<"),
            Operator::Le => String::from_str("<="),
            Operator::In => String::from_str("in"),
            Operator::Like => String::from_str("like"),
            Operator::IsNull => String::from_str("is null"),
            Operator::IsNotNull => String::from_str("is not null"),
        }
    }
}

/// The placeholder with the number `index`.
pub fn placeholder_text(index: usize) -> (r: String)
    ensures
        r@ == placeholder(index as int),
{
    let mut out = String::from_str("$");
    out.append(usize_to_string(index).as_str());
    out
}

fn placeholders_from(first: usize, n: usize) -> (r: Vec<String>)
    requires
        first + n <= usize::MAX,
    ensures
        views(r@) == placeholder_list(first as int, n as nat),
{
    let mut params: Vec<String> = Vec::new();
    let mut i: usize = 0;
    while i < n
        invariant
            i <= n,
            first + n <= usize::MAX,
            views(params@) == placeholder_list(first as int, i as nat),
        decreases n - i,
    {
        let ghost before = params@;
        let item = placeholder_text(first + i);
        params.push(item);
        proof {
            assert(views(params@) =~= views(before).push(item@));
            assert(views(params@) =~= placeholder_list(first as int, (i + 1) as nat));
        }
        i += 1;
    }
    params
}

fn wrapped(wrap: bool, text: &String) -> (r: String)
    ensures
        r@ == in_brackets(wrap, text@),
{
    if wrap {
        let mut out = String::from_str("(");
        out.append(text.as_str());
        out.append(")");
        out
    } else {
        text.clone()
    }
}

impl Clone for Condition {
    fn clone(&self) -> (r: Self)
        ensures
            r@ == self@,
        decreases self,
    {
        match self {
            Condition::Condition(p, o) => Condition::Condition(p.clone(), *o),
            Condition::And(left, right) => {
                let l = (&**left).clone();
                let r = (&**right).clone();
                Condition::And(Box::new(l), Box::new(r))
            },
            Condition::Or(left, right) => {
                let l = (&**left).clone();
                let r = (&**right).clone();
                Condition::Or(Box::new(l), Box::new(r))
            },
        }
    }
}

impl Default for Where {
    fn default() -> (r: Self)
        ensures
            r@ is None,
    {
        Where { cond: None }
    }
}

impl Clone for Where {
    fn clone(&self) -> (r: Self)
        ensures
            r@ == self@,
    {
        match &self.cond {
            Some(c) => Where { cond: Some(Box::new((&**c).clone())) },
            None => Where { cond: None },
        }
    }
}

impl Condition {
    /// Where the numbering of placeholders goes on behind the
    /// condition, if that number can be held.
    pub fn next_index(&self, param_index: usize) -> (r: Option<usize>)
        ensures
            match r {
                Some(n) => n == param_index + slots(self@),
                None => param_index + slots(self@) > usize::MAX,
            },
        decreases self,
    {
        match self {
            Condition::Condition(p, o) => {
                if o.is_not_param() {
                    Some(param_index)
                } else if *o == Operator::In {
                    param_index.checked_add(p.value.len())
                } else {
                    param_index.checked_add(1)
                }
            },
            Condition::And(left, right) => match left.next_index(param_index) {
                Some(n) => right.next_index(n),
                None => None,
            },
            Condition::Or(left, right) => match left.next_index(param_index) {
                Some(n) => right.next_index(n),
                None => None,
            },
        }
    }

    /// Whether the condition is a leaf.
    pub fn is_condition(&self) -> (r: bool)
        ensures
            r == (self@ is Leaf),
    {
        match self {
            Condition::Condition(_, _) => true,
            Condition::And(_, _) => false,
            Condition::Or(_, _) => false,
        }
    }

    /// Whether the condition joins two by `and`.
    pub fn is_and(&self) -> (r: bool)
        ensures
            r == (self@ is And),
    {
        match self {
            Condition::Condition(_, _) => false,
            Condition::And(_, _) => true,
            Condition::Or(_, _) => false,
        }
    }

    /// Whether the condition joins two by `or`.
    pub fn is_or(&self) -> (r: bool)
        ensures
            r == (self@ is Or),
    {
        match self {
            Condition::Condition(_, _) => false,
            Condition::And(_, _) => false,
            Condition::Or(_, _) => true,
        }
    }

    /// Adds the values of the condition to the values of a statement:
    /// those of each leaf, the leaves taken from left to right.
    pub fn bind_to_query(&self, query: Query) -> (r: Query)
        ensures
            r@.sql == query@.sql,
            r@.args == query@.args + bound(self@),
        decreases self,
    {
        match self {
            Condition::Condition(p, o) => {
                if o.is_not_param() {
                    assert(query@.args + bound(self@) =~= query@.args);
                    query
                } else {
                    p.bind_to_query(query)
                }
            },
            Condition::And(left, right) => {
                let qry = left.bind_to_query(query);
                let out = right.bind_to_query(qry);
                assert(out@.args =~= query@.args + bound(self@));
                out
            },
            Condition::Or(left, right) => {
                let qry = left.bind_to_query(query);
                let out = right.bind_to_query(qry);
                assert(out@.args =~= query@.args + bound(self@));
                out
            },
        }
    }

    /// The condition as SQL and the number at which the numbering goes
    /// on, as `sql` gives them; none where the numbers of the
    /// placeholders cannot be held.
    pub fn try_sql(&self, param_index: usize, quoter: &Quoter) -> (r: Option<(String, usize)>)
        ensures
            match r {
                Some(out) => param_index + slots(self@) <= usize::MAX && out.0@ == rendered(
                    quoter@,
                    self@,
                    param_index as int,
                ) && out.1 == param_index + slots(self@),
                None => param_index + slots(self@) > usize::MAX,
            },
    {
        match self.next_index(param_index) {
            Some(_) => Some(self.sql(param_index, quoter)),
            None => None,
        }
    }

    /// The condition as SQL, and the number at which the placeholders
    /// of what follows go on. The placeholders of the condition are
    /// numbered from `param_index` on.
    pub fn sql(&self, param_index: usize, quoter: &Quoter) -> (r: (String, usize))
        requires
            param_index + slots(self@) <= usize::MAX,
        ensures
            r.0@ == rendered(quoter@, self@, param_index as int),
            r.1 == param_index + slots(self@),
        decreases self,
    {
        match self {
            Condition::Condition(p, o) => {
                let mut out = quoter.quote(&p.name);
                out.append(" ");
                out.append(o.sql().as_str());
                if o.is_not_param() {
                    return (out, param_index);
                }
                if *o == Operator::In {
                    let params = placeholders_from(param_index, p.value.len());
                    out.append(" (");
                    out.append(join_strings(&params, ",").as_str());
                    out.append(")");
                    assert(out@ =~= rendered(quoter@, self@, param_index as int));
                    return (out, param_index + p.value.len());
                }
                out.append(" ");
                out.append(placeholder_text(param_index).as_str());
                assert(out@ =~= rendered(quoter@, self@, param_index as int));
                (out, param_index + 1)
            },
            Condition::And(left, right) => {
                let (left_cond, index) = left.sql(param_index, quoter);
                let (right_cond, index) = right.sql(index, quoter);
                let mut out = wrapped(left.is_or(), &left_cond);
                out.append(" and ");
                out.append(wrapped(right.is_or(), &right_cond).as_str());
                (out, index)
            },
            Condition::Or(left, right) => {
                let (left_cond, index) = left.sql(param_index, quoter);
                let (right_cond, index) = right.sql(index, quoter);
                let mut out = wrapped(left.is_and(), &left_cond);
                out.append(" or ");
                out.append(wrapped(right.is_and(), &right_cond).as_str());
                (out, index)
            },
        }
    }
}

/// What can be joined to the condition of a query.
pub trait WhereAppend<T>: Sized {
    /// Joins `cond` by `and`.
    fn and(self, cond: T) -> Self;

    /// Joins `cond` by `or`.
    fn or(self, cond: T) -> Self;
}

impl WhereAppend<Condition> for Where {
    fn and(self, cond: Condition) -> (r: Self)
        ensures
            r@ == joined_and(self@, Some(cond@)),
    {
        match self.cond {
            Some(c) => Where { cond: Some(Box::new(Condition::And(c, Box::new(cond)))) },
            None => Where { cond: Some(Box::new(cond)) },
        }
    }

    fn or(self, cond: Condition) -> (r: Self)
        ensures
            r@ == joined_or(self@, Some(cond@)),
    {
        match self.cond {
            Some(c) => Where { cond: Some(Box::new(Condition::Or(c, Box::new(cond)))) },
            None => Where { cond: Some(Box::new(cond)) },
        }
    }
}

impl WhereAppend<Where> for Where {
    fn and(self, w: Where) -> (r: Self)
        ensures
            r@ == joined_and(self@, w@),
    {
        match w.cond {
            Some(wcond) => match self.cond {
                Some(c) => Where { cond: Some(Box::new(Condition::And(c, wcond))) },
                None => Where { cond: Some(wcond) },
            },
            None => self,
        }
    }

    fn or(self, w: Where) -> (r: Self)
        ensures
            r@ == joined_or(self@, w@),
    {
        match w.cond {
            Some(wcond) => match self.cond {
                Some(c) => Where { cond: Some(Box::new(Condition::Or(c, wcond))) },
                None => Where { cond: Some(wcond) },
            },
            None => self,
        }
    }
}

impl Where {
    /// The condition `cond` as that of a query.
    pub fn new(cond: Condition) -> (r: Self)
        ensures
            r@ == Some(cond@),
    {
        Where { cond: Some(Box::new(cond)) }
    }

    /// Where the numbering of placeholders goes on behind the
    /// condition, if that number can be held.
    pub fn next_index(&self, param_index: usize) -> (r: Option<usize>)
        ensures
            match r {
                Some(n) => n == param_index + where_slots(self@),
                None => param_index + where_slots(self@) > usize::MAX,
            },
    {
        match &self.cond {
            Some(c) => c.next_index(param_index),
            None => Some(param_index),
        }
    }

    /// Adds the values of the condition to the values of a statement.
    pub fn bind_to_query(&self, query: Query) -> (r: Query)
        ensures
            r@.sql == query@.sql,
            r@.args == query@.args + where_bound(self@),
    {
        match &self.cond {
            Some(c) => c.bind_to_query(query),
            None => {
                assert(query@.args + where_bound(self@) =~= query@.args);
                query
            },
        }
    }

    /// The condition as SQL and the number at which the numbering goes
    /// on, as `sql` gives them; none where the numbers of the
    /// placeholders cannot be held.
    pub fn try_sql(&self, param_index: usize, quoter: &Quoter) -> (r: Option<(String, usize)>)
        ensures
            match r {
                Some(out) => param_index + where_slots(self@) <= usize::MAX && out.0@
                    == rendered_where(quoter@, self@, param_index as int) && out.1 == param_index
                    + where_slots(self@),
                None => param_index + where_slots(self@) > usize::MAX,
            },
    {
        match self.next_index(param_index) {
            Some(_) => Some(self.sql(param_index, quoter)),
            None => None,
        }
    }

    /// The condition as SQL, and the number at which the placeholders
    /// of what follows go on; the empty text where there is no condition.
    pub fn sql(&self, param_index: usize, quoter: &Quoter) -> (r: (String, usize))
        requires
            param_index + where_slots(self@) <= usize::MAX,
        ensures
            r.0@ == rendered_where(quoter@, self@, param_index as int),
            r.1 == param_index + where_slots(self@),
    {
        match &self.cond {
            Some(cond) => cond.sql(param_index, quoter),
            None => (String::new(), param_index),
        }
    }
}

} // verus!
