//! Values from the types that a caller holds.
//!
//! A number, a text, a stamp of date and time and bytes each become the
//! value of their kind; an absent one becomes the `NULL` of that kind; a
//! list becomes the list of the values of its items. Unsigned numbers are
//! taken as the signed ones of the same width, bit for bit.

use vstd::prelude::*;
use vstd::std_specs::convert::FromSpecImpl;
use vstd::string::*;
use chrono::NaiveDateTime;
use crate::value::{lemma_view_of_list, Value, ValueView};

verus! {

impl From<bool> for Value {
    fn from(value: bool) -> (r: Self) {
        Value::Bool(Some(value))
    }
}

impl FromSpecImpl<bool> for Value {
    open spec fn obeys_from_spec() -> bool {
        true
    }

    open spec fn from_spec(value: bool) -> Self {
        Value::Bool(Some(value))
    }
}

impl From<&bool> for Value {
    fn from(value: &bool) -> (r: Self) {
        Value::Bool(Some(*value))
    }
}

impl FromSpecImpl<&bool> for Value {
    open spec fn obeys_from_spec() -> bool {
        true
    }

    open spec fn from_spec(value: &bool) -> Self {
        Value::Bool(Some(*value))
    }
}

impl From<Option<bool>> for Value {
    fn from(value: Option<bool>) -> (r: Self) {
        Value::Bool(value)
    }
}

impl FromSpecImpl<Option<bool>> for Value {
    open spec fn obeys_from_spec() -> bool {
        true
    }

    open spec fn from_spec(value: Option<bool>) -> Self {
        Value::Bool(value)
    }
}

impl From<i16> for Value {
    fn from(value: i16) -> (r: Self) {
        Value::Short(Some(value))
    }
}

impl FromSpecImpl<i16> for Value {
    open spec fn obeys_from_spec() -> bool {
        true
    }

    open spec fn from_spec(value: i16) -> Self {
        Value::Short(Some(value))
    }
}

impl From<&i16> for Value {
    fn from(value: &i16) -> (r: Self) {
        Value::Short(Some(*value))
    }
}

impl FromSpecImpl<&i16> for Value {
    open spec fn obeys_from_spec() -> bool {
        true
    }

    open spec fn from_spec(value: &i16) -> Self {
        Value::Short(Some(*value))
    }
}

impl From<Option<i16>> for Value {
    fn from(value: Option<i16>) -> (r: Self) {
        Value::Short(value)
    }
}

impl FromSpecImpl<Option<i16>> for Value {
    open spec fn obeys_from_spec() -> bool {
        true
    }

    open spec fn from_spec(value: Option<i16>) -> Self {
        Value::Short(value)
    }
}

impl From<i32> for Value {
    fn from(value: i32) -> (r: Self) {
        Value::Int(Some(value))
    }
}

impl FromSpecImpl<i32> for Value {
    open spec fn obeys_from_spec() -> bool {
        true
    }

    open spec fn from_spec(value: i32) -> Self {
        Value::Int(Some(value))
    }
}

impl From<&i32> for Value {
    fn from(value: &i32) -> (r: Self) {
        Value::Int(Some(*value))
    }
}

impl FromSpecImpl<&i32> for Value {
    open spec fn obeys_from_spec() -> bool {
        true
    }

    open spec fn from_spec(value: &i32) -> Self {
        Value::Int(Some(*value))
    }
}

impl From<Option<i32>> for Value {
    fn from(value: Option<i32>) -> (r: Self) {
        Value::Int(value)
    }
}

impl FromSpecImpl<Option<i32>> for Value {
    open spec fn obeys_from_spec() -> bool {
        true
    }

    open spec fn from_spec(value: Option<i32>) -> Self {
        Value::Int(value)
    }
}

impl From<i64> for Value {
    fn from(value: i64) -> (r: Self) {
        Value::Long(Some(value))
    }
}

impl FromSpecImpl<i64> for Value {
    open spec fn obeys_from_spec() -> bool {
        true
    }

    open spec fn from_spec(value: i64) -> Self {
        Value::Long(Some(value))
    }
}

impl From<&i64> for Value {
    fn from(value: &i64) -> (r: Self) {
        Value::Long(Some(*value))
    }
}

impl FromSpecImpl<&i64> for Value {
    open spec fn obeys_from_spec() -> bool {
        true
    }

    open spec fn from_spec(value: &i64) -> Self {
        Value::Long(Some(*value))
    }
}

impl From<Option<i64>> for Value {
    fn from(value: Option<i64>) -> (r: Self) {
        Value::Long(value)
    }
}

impl FromSpecImpl<Option<i64>> for Value {
    open spec fn obeys_from_spec() -> bool {
        true
    }

    open spec fn from_spec(value: Option<i64>) -> Self {
        Value::Long(value)
    }
}

impl From<u16> for Value {
    fn from(value: u16) -> (r: Self) {
        Value::Short(Some(#[verifier::truncate] (value as i16)))
    }
}

impl FromSpecImpl<u16> for Value {
    open spec fn obeys_from_spec() -> bool {
        true
    }

    open spec fn from_spec(value: u16) -> Self {
        Value::Short(Some(value as i16))
    }
}

impl From<&u16> for Value {
    fn from(value: &u16) -> (r: Self) {
        Value::Short(Some(#[verifier::truncate] (*value as i16)))
    }
}

impl FromSpecImpl<&u16> for Value {
    open spec fn obeys_from_spec() -> bool {
        true
    }

    open spec fn from_spec(value: &u16) -> Self {
        Value::Short(Some(*value as i16))
    }
}

impl From<Option<u16>> for Value {
    fn from(value: Option<u16>) -> (r: Self) {
        match value {
            Some(val) => Value::Short(Some(#[verifier::truncate] (val as i16))),
            None => Value::Short(None),
        }
    }
}

impl FromSpecImpl<Option<u16>> for Value {
    open spec fn obeys_from_spec() -> bool {
        true
    }

    open spec fn from_spec(value: Option<u16>) -> Self {
        match value {
            Some(val) => Value::Short(Some(val as i16)),
            None => Value::Short(None),
        }
    }
}

impl From<u32> for Value {
    fn from(value: u32) -> (r: Self) {
        Value::Int(Some(#[verifier::truncate] (value as i32)))
    }
}

impl FromSpecImpl<u32> for Value {
    open spec fn obeys_from_spec() -> bool {
        true
    }

    open spec fn from_spec(value: u32) -> Self {
        Value::Int(Some(value as i32))
    }
}

impl From<&u32> for Value {
    fn from(value: &u32) -> (r: Self) {
        Value::Int(Some(#[verifier::truncate] (*value as i32)))
    }
}

impl FromSpecImpl<&u32> for Value {
    open spec fn obeys_from_spec() -> bool {
        true
    }

    open spec fn from_spec(value: &u32) -> Self {
        Value::Int(Some(*value as i32))
    }
}

impl From<Option<u32>> for Value {
    fn from(value: Option<u32>) -> (r: Self) {
        match value {
            Some(val) => Value::Int(Some(#[verifier::truncate] (val as i32))),
            None => Value::Int(None),
        }
    }
}

impl FromSpecImpl<Option<u32>> for Value {
    open spec fn obeys_from_spec() -> bool {
        true
    }

    open spec fn from_spec(value: Option<u32>) -> Self {
        match value {
            Some(val) => Value::Int(Some(val as i32)),
            None => Value::Int(None),
        }
    }
}

impl From<u64> for Value {
    fn from(value: u64) -> (r: Self) {
        Value::Long(Some(#[verifier::truncate] (value as i64)))
    }
}

impl FromSpecImpl<u64> for Value {
    open spec fn obeys_from_spec() -> bool {
        true
    }

    open spec fn from_spec(value: u64) -> Self {
        Value::Long(Some(value as i64))
    }
}

impl From<&u64> for Value {
    fn from(value: &u64) -> (r: Self) {
        Value::Long(Some(#[verifier::truncate] (*value as i64)))
    }
}

impl FromSpecImpl<&u64> for Value {
    open spec fn obeys_from_spec() -> bool {
        true
    }

    open spec fn from_spec(value: &u64) -> Self {
        Value::Long(Some(*value as i64))
    }
}

impl From<Option<u64>> for Value {
    fn from(value: Option<u64>) -> (r: Self) {
        match value {
            Some(val) => Value::Long(Some(#[verifier::truncate] (val as i64))),
            None => Value::Long(None),
        }
    }
}

impl FromSpecImpl<Option<u64>> for Value {
    open spec fn obeys_from_spec() -> bool {
        true
    }

    open spec fn from_spec(value: Option<u64>) -> Self {
        match value {
            Some(val) => Value::Long(Some(val as i64)),
            None => Value::Long(None),
        }
    }
}

impl From<String> for Value {
    fn from(value: String) -> (r: Self) {
        Value::Text(Some(value))
    }
}

impl FromSpecImpl<String> for Value {
    open spec fn obeys_from_spec() -> bool {
        true
    }

    open spec fn from_spec(value: String) -> Self {
        Value::Text(Some(value))
    }
}

impl From<&String> for Value {
    fn from(value: &String) -> (r: Self) {
        Value::Text(Some(value.clone()))
    }
}

impl FromSpecImpl<&String> for Value {
    open spec fn obeys_from_spec() -> bool {
        true
    }

    open spec fn from_spec(value: &String) -> Self {
        Value::Text(Some(*value))
    }
}

impl From<Option<String>> for Value {
    fn from(value: Option<String>) -> (r: Self) {
        Value::Text(value)
    }
}

impl FromSpecImpl<Option<String>> for Value {
    open spec fn obeys_from_spec() -> bool {
        true
    }

    open spec fn from_spec(value: Option<String>) -> Self {
        Value::Text(value)
    }
}

impl From<Vec<u8>> for Value {
    fn from(value: Vec<u8>) -> (r: Self) {
        Value::Binary(Some(value))
    }
}

impl FromSpecImpl<Vec<u8>> for Value {
    open spec fn obeys_from_spec() -> bool {
        true
    }

    open spec fn from_spec(value: Vec<u8>) -> Self {
        Value::Binary(Some(value))
    }
}

impl From<&Vec<u8>> for Value {
    fn from(value: &Vec<u8>) -> (r: Self)
        ensures
            r@ == ValueView::Binary(Some(value@)),
    {
        let copy = value.clone();
        assert(copy@ =~= value@);
        Value::Binary(Some(copy))
    }
}

impl FromSpecImpl<&Vec<u8>> for Value {
    open spec fn obeys_from_spec() -> bool {
        false
    }

    open spec fn from_spec(value: &Vec<u8>) -> Self {
        arbitrary()
    }
}

impl From<Option<Vec<u8>>> for Value {
    fn from(value: Option<Vec<u8>>) -> (r: Self) {
        Value::Binary(value)
    }
}

impl FromSpecImpl<Option<Vec<u8>>> for Value {
    open spec fn obeys_from_spec() -> bool {
        true
    }

    open spec fn from_spec(value: Option<Vec<u8>>) -> Self {
        Value::Binary(value)
    }
}

impl From<NaiveDateTime> for Value {
    fn from(value: NaiveDateTime) -> (r: Self) {
        Value::ChronoDate(Some(value))
    }
}

impl FromSpecImpl<NaiveDateTime> for Value {
    open spec fn obeys_from_spec() -> bool {
        true
    }

    open spec fn from_spec(value: NaiveDateTime) -> Self {
        Value::ChronoDate(Some(value))
    }
}

impl From<&NaiveDateTime> for Value {
    fn from(value: &NaiveDateTime) -> (r: Self) {
        Value::ChronoDate(Some(*value))
    }
}

impl FromSpecImpl<&NaiveDateTime> for Value {
    open spec fn obeys_from_spec() -> bool {
        true
    }

    open spec fn from_spec(value: &NaiveDateTime) -> Self {
        Value::ChronoDate(Some(*value))
    }
}

impl From<Option<NaiveDateTime>> for Value {
    fn from(value: Option<NaiveDateTime>) -> (r: Self) {
        Value::ChronoDate(value)
    }
}

impl FromSpecImpl<Option<NaiveDateTime>> for Value {
    open spec fn obeys_from_spec() -> bool {
        true
    }

    open spec fn from_spec(value: Option<NaiveDateTime>) -> Self {
        Value::ChronoDate(value)
    }
}

impl From<Vec<bool>> for Value {
    fn from(value: Vec<bool>) -> (r: Self)
        ensures
            r@ == ValueView::Array(value@.map_values(|v: bool| ValueView::Bool(Some(v)))),
    {
        let mut items: Vec<Value> = Vec::new();
        let mut i: usize = 0;
        while i < value.len()
            invariant
                i <= value.len(),
                items.len() == i,
                forall|j: int|
                    0 <= j < i ==> (#[trigger] items@[j])@ == ValueView::Bool(Some(value@[j])),
            decreases value.len() - i,
        {
            items.push(Value::Bool(Some(value[i])));
            i += 1;
        }
        let r = Value::Array(items);
        proof {
            lemma_view_of_list(r);
            assert(r@->Array_0 =~= value@.map_values(|v: bool| ValueView::Bool(Some(v))));
        }
        r
    }
}

impl FromSpecImpl<Vec<bool>> for Value {
    open spec fn obeys_from_spec() -> bool {
        false
    }

    open spec fn from_spec(value: Vec<bool>) -> Self {
        arbitrary()
    }
}

impl From<Vec<i16>> for Value {
    fn from(value: Vec<i16>) -> (r: Self)
        ensures
            r@ == ValueView::Array(value@.map_values(|v: i16| ValueView::Short(Some(v)))),
    {
        let mut items: Vec<Value> = Vec::new();
        let mut i: usize = 0;
        while i < value.len()
            invariant
                i <= value.len(),
                items.len() == i,
                forall|j: int|
                    0 <= j < i ==> (#[trigger] items@[j])@ == ValueView::Short(Some(value@[j])),
            decreases value.len() - i,
        {
            items.push(Value::Short(Some(value[i])));
            i += 1;
        }
        let r = Value::Array(items);
        proof {
            lemma_view_of_list(r);
            assert(r@->Array_0 =~= value@.map_values(|v: i16| ValueView::Short(Some(v))));
        }
        r
    }
}

impl FromSpecImpl<Vec<i16>> for Value {
    open spec fn obeys_from_spec() -> bool {
        false
    }

    open spec fn from_spec(value: Vec<i16>) -> Self {
        arbitrary()
    }
}

impl From<Vec<i32>> for Value {
    fn from(value: Vec<i32>) -> (r: Self)
        ensures
            r@ == ValueView::Array(value@.map_values(|v: i32| ValueView::Int(Some(v)))),
    {
        let mut items: Vec<Value> = Vec::new();
        let mut i: usize = 0;
        while i < value.len()
            invariant
                i <= value.len(),
                items.len() == i,
                forall|j: int|
                    0 <= j < i ==> (#[trigger] items@[j])@ == ValueView::Int(Some(value@[j])),
            decreases value.len() - i,
        {
            items.push(Value::Int(Some(value[i])));
            i += 1;
        }
        let r = Value::Array(items);
        proof {
            lemma_view_of_list(r);
            assert(r@->Array_0 =~= value@.map_values(|v: i32| ValueView::Int(Some(v))));
        }
        r
    }
}

impl FromSpecImpl<Vec<i32>> for Value {
    open spec fn obeys_from_spec() -> bool {
        false
    }

    open spec fn from_spec(value: Vec<i32>) -> Self {
        arbitrary()
    }
}

impl From<Vec<i64>> for Value {
    fn from(value: Vec<i64>) -> (r: Self)
        ensures
            r@ == ValueView::Array(value@.map_values(|v: i64| ValueView::Long(Some(v)))),
    {
        let mut items: Vec<Value> = Vec::new();
        let mut i: usize = 0;
        while i < value.len()
            invariant
                i <= value.len(),
                items.len() == i,
                forall|j: int|
                    0 <= j < i ==> (#[trigger] items@[j])@ == ValueView::Long(Some(value@[j])),
            decreases value.len() - i,
        {
            items.push(Value::Long(Some(value[i])));
            i += 1;
        }
        let r = Value::Array(items);
        proof {
            lemma_view_of_list(r);
            assert(r@->Array_0 =~= value@.map_values(|v: i64| ValueView::Long(Some(v))));
        }
        r
    }
}

impl FromSpecImpl<Vec<i64>> for Value {
    open spec fn obeys_from_spec() -> bool {
        false
    }

    open spec fn from_spec(value: Vec<i64>) -> Self {
        arbitrary()
    }
}

impl From<Vec<u16>> for Value {
    fn from(value: Vec<u16>) -> (r: Self)
        ensures
            r@ == ValueView::Array(value@.map_values(|v: u16| ValueView::Short(Some(v as i16)))),
    {
        let mut items: Vec<Value> = Vec::new();
        let mut i: usize = 0;
        while i < value.len()
            invariant
                i <= value.len(),
                items.len() == i,
                forall|j: int|
                    0 <= j < i ==> (#[trigger] items@[j])@ == ValueView::Short(Some(value@[j] as i16)),
            decreases value.len() - i,
        {
            items.push(Value::Short(Some(#[verifier::truncate] (value[i] as i16))));
            i += 1;
        }
        let r = Value::Array(items);
        proof {
            lemma_view_of_list(r);
            assert(r@->Array_0 =~= value@.map_values(|v: u16| ValueView::Short(Some(v as i16))));
        }
        r
    }
}

impl FromSpecImpl<Vec<u16>> for Value {
    open spec fn obeys_from_spec() -> bool {
        false
    }

    open spec fn from_spec(value: Vec<u16>) -> Self {
        arbitrary()
    }
}

impl From<Vec<u32>> for Value {
    fn from(value: Vec<u32>) -> (r: Self)
        ensures
            r@ == ValueView::Array(value@.map_values(|v: u32| ValueView::Int(Some(v as i32)))),
    {
        let mut items: Vec<Value> = Vec::new();
        let mut i: usize = 0;
        while i < value.len()
            invariant
                i <= value.len(),
                items.len() == i,
                forall|j: int|
                    0 <= j < i ==> (#[trigger] items@[j])@ == ValueView::Int(Some(value@[j] as i32)),
            decreases value.len() - i,
        {
            items.push(Value::Int(Some(#[verifier::truncate] (value[i] as i32))));
            i += 1;
        }
        let r = Value::Array(items);
        proof {
            lemma_view_of_list(r);
            assert(r@->Array_0 =~= value@.map_values(|v: u32| ValueView::Int(Some(v as i32))));
        }
        r
    }
}

impl FromSpecImpl<Vec<u32>> for Value {
    open spec fn obeys_from_spec() -> bool {
        false
    }

    open spec fn from_spec(value: Vec<u32>) -> Self {
        arbitrary()
    }
}

impl From<Vec<u64>> for Value {
    fn from(value: Vec<u64>) -> (r: Self)
        ensures
            r@ == ValueView::Array(value@.map_values(|v: u64| ValueView::Long(Some(v as i64)))),
    {
        let mut items: Vec<Value> = Vec::new();
        let mut i: usize = 0;
        while i < value.len()
            invariant
                i <= value.len(),
                items.len() == i,
                forall|j: int|
                    0 <= j < i ==> (#[trigger] items@[j])@ == ValueView::Long(Some(value@[j] as i64)),
            decreases value.len() - i,
        {
            items.push(Value::Long(Some(#[verifier::truncate] (value[i] as i64))));
            i += 1;
        }
        let r = Value::Array(items);
        proof {
            lemma_view_of_list(r);
            assert(r@->Array_0 =~= value@.map_values(|v: u64| ValueView::Long(Some(v as i64))));
        }
        r
    }
}

impl FromSpecImpl<Vec<u64>> for Value {
    open spec fn obeys_from_spec() -> bool {
        false
    }

    open spec fn from_spec(value: Vec<u64>) -> Self {
        arbitrary()
    }
}

impl From<Vec<String>> for Value {
    fn from(value: Vec<String>) -> (r: Self)
        ensures
            r@ == ValueView::Array(value@.map_values(|v: String| ValueView::Text(Some(v@)))),
    {
        let mut items: Vec<Value> = Vec::new();
        let mut i: usize = 0;
        while i < value.len()
            invariant
                i <= value.len(),
                items.len() == i,
                forall|j: int|
                    0 <= j < i ==> (#[trigger] items@[j])@ == ValueView::Text(Some(value@[j]@)),
            decreases value.len() - i,
        {
            items.push(Value::Text(Some(value[i].clone())));
            i += 1;
        }
        let r = Value::Array(items);
        proof {
            lemma_view_of_list(r);
            assert(r@->Array_0 =~= value@.map_values(|v: String| ValueView::Text(Some(v@))));
        }
        r
    }
}

impl FromSpecImpl<Vec<String>> for Value {
    open spec fn obeys_from_spec() -> bool {
        false
    }

    open spec fn from_spec(value: Vec<String>) -> Self {
        arbitrary()
    }
}

impl From<Vec<NaiveDateTime>> for Value {
    fn from(value: Vec<NaiveDateTime>) -> (r: Self)
        ensures
            r@ == ValueView::Array(value@.map_values(|v: NaiveDateTime| ValueView::ChronoDate(Some(v)))),
    {
        let mut items: Vec<Value> = Vec::new();
        let mut i: usize = 0;
        while i < value.len()
            invariant
                i <= value.len(),
                items.len() == i,
                forall|j: int|
                    0 <= j < i ==> (#[trigger] items@[j])@ == ValueView::ChronoDate(Some(value@[j])),
            decreases value.len() - i,
        {
            items.push(Value::ChronoDate(Some(value[i])));
            i += 1;
        }
        let r = Value::Array(items);
        proof {
            lemma_view_of_list(r);
            assert(r@->Array_0 =~= value@.map_values(|v: NaiveDateTime| ValueView::ChronoDate(Some(v))));
        }
        r
    }
}

impl FromSpecImpl<Vec<NaiveDateTime>> for Value {
    open spec fn obeys_from_spec() -> bool {
        false
    }

    open spec fn from_spec(value: Vec<NaiveDateTime>) -> Self {
        arbitrary()
    }
}

} // verus!
