//! The list that a parsed attribute holds: items that are owned, or
//! borrowed from a slice.

use vstd::prelude::*;

verus! {

/// A list of items that are owned or borrowed.
#[derive(Debug)]
pub enum Array<'a, T> {
    Owned(Vec<T>),
    Borrowed(&'a [T]),
}

impl<'a, T> View for Array<'a, T> {
    type V = Seq<T>;

    open spec fn view(&self) -> Seq<T> {
        match self {
            Array::Owned(items) => items@,
            Array::Borrowed(items) => items@,
        }
    }
}

impl<'a, T> Array<'a, T> {
    /// The list that owns `items`, in their order.
    pub fn from_vec(items: Vec<T>) -> (r: Self)
        ensures
            r == Array::<'a, T>::Owned(items),
            r@ == items@,
    {
        Array::Owned(items)
    }

    /// The items as a slice, in their order, whether they are owned or
    /// borrowed.
    pub fn as_slice(&self) -> (r: &[T])
        ensures
            r@ == self@,
    {
        match self {
            Array::Owned(items) => items.as_slice(),
            Array::Borrowed(items) => items,
        }
    }

    /// How many items the list holds.
    pub fn len(&self) -> (r: usize)
        ensures
            r == self@.len(),
    {
        self.as_slice().len()
    }
}

} // verus!
