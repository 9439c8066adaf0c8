//! Tuples: ordered sequences of values of any kind.

use vstd::prelude::*;
use crate::value::{Value, ValueModel, clone_values, values_model};

verus! {

/// An ordered sequence of values.
#[derive(Debug)]
pub struct Tuple {
    pub data: Vec<Value>,
}

impl View for Tuple {
    type V = Seq<ValueModel>;

    open spec fn view(&self) -> Seq<ValueModel> {
        values_model(self.data@)
    }
}

impl Clone for Tuple {
    fn clone(&self) -> (r: Self)
        ensures
            r@ == self@,
    {
        Tuple { data: clone_values(&self.data) }
    }
}

impl Tuple {
    /// The tuple of these values in this order.
    pub fn new(data: Vec<Value>) -> (r: Tuple)
        ensures
            r@ == values_model(data@),
            r.data == data,
    {
        Tuple { data }
    }

    /// The tuple without elements.
    pub fn empty() -> (r: Tuple)
        ensures
            r@ == Seq::<ValueModel>::empty(),
    {
        let data: Vec<Value> = Vec::new();
        assert(values_model(data@) =~= Seq::<ValueModel>::empty());
        Tuple { data }
    }

    /// The number of elements.
    pub fn len(&self) -> (r: usize)
        ensures
            r == self@.len(),
    {
        self.data.len()
    }

    /// The element at an index, or `None` past the end.
    pub fn get(&self, index: usize) -> (r: Option<&Value>)
        ensures
            match r {
                Some(v) => index < self@.len() && v@ == self@[index as int],
                None => index >= self@.len(),
            },
    {
        if index < self.data.len() {
            Some(&self.data[index])
        } else {
            None
        }
    }
}

} // verus!
