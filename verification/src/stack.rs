//! The operand stack: a last-in, first-out sequence of values.

use vstd::prelude::*;
use crate::value::{
    Value, ValueModel, lemma_values_model_drop_last, lemma_values_model_push, values_model,
};

verus! {

/// The operand stack. Its view lists the values from the bottom to the
/// top.
#[derive(Debug)]
pub struct Stack {
    pub data: Vec<Value>,
}

impl View for Stack {
    type V = Seq<ValueModel>;

    open spec fn view(&self) -> Seq<ValueModel> {
        values_model(self.data@)
    }
}

impl Stack {
    /// The empty stack.
    pub fn new() -> (r: Stack)
        ensures
            r@ == Seq::<ValueModel>::empty(),
    {
        let data: Vec<Value> = Vec::new();
        assert(values_model(data@) =~= Seq::<ValueModel>::empty());
        Stack { data }
    }

    /// Puts a value on top.
    pub fn push(&mut self, value: Value)
        ensures
            final(self)@ == old(self)@.push(value@),
    {
        proof {
            lemma_values_model_push(self.data@, value);
        }
        self.data.push(value);
    }

    /// Takes the top value off. The stack must not be empty.
    pub fn pop(&mut self) -> (r: Value)
        requires
            old(self)@.len() > 0,
        ensures
            r@ == old(self)@.last(),
            final(self)@ == old(self)@.drop_last(),
    {
        proof {
            lemma_values_model_drop_last(self.data@);
        }
        self.data.pop().unwrap()
    }

    /// The top value. The stack must not be empty.
    pub fn peek(&self) -> (r: &Value)
        requires
            self@.len() > 0,
        ensures
            r@ == self@.last(),
    {
        &self.data[self.data.len() - 1]
    }

    /// The number of values on the stack.
    pub fn len(&self) -> (r: usize)
        ensures
            r == self@.len(),
    {
        self.data.len()
    }

    /// Whether the stack holds no value.
    pub fn is_empty(&self) -> (r: bool)
        ensures
            r == (self@.len() == 0),
    {
        self.data.len() == 0
    }
}

} // verus!
