//! Functions: code, parameter names and a captured environment.

use vstd::prelude::*;
use crate::instruction::{Instruction, InstructionModel};
use crate::machine::environment::{Environment, bindings};
use crate::value::{ValueModel, clone_function, code_model, function_model};
use crate::program::texts;

verus! {

/// A function value. One with captured bindings is a closure.
#[derive(Debug)]
pub struct Function {
    pub code: Vec<Instruction>,
    pub argument_names: Vec<String>,
    pub environment: Environment,
}

/// What a `Function` is.
pub struct FunctionModel {
    pub code: Seq<InstructionModel>,
    pub argument_names: Seq<Seq<char>>,
    pub environment: Map<Seq<char>, ValueModel>,
}

impl View for Function {
    type V = FunctionModel;

    open spec fn view(&self) -> FunctionModel {
        function_model(*self)
    }
}

impl Clone for Function {
    fn clone(&self) -> (r: Self)
        ensures
            r@ == self@,
    {
        clone_function(self)
    }
}

impl Function {
    /// The function with this code and these parameters, and nothing
    /// captured.
    pub fn new(code: Vec<Instruction>, argument_names: Vec<String>) -> (r: Function)
        ensures
            r@.code == code_model(code@),
            r@.argument_names == texts(argument_names@),
            r@.environment == Map::<Seq<char>, ValueModel>::empty(),
    {
        Function { code, argument_names, environment: Environment::new() }
    }

    /// The function without code or parameters.
    pub fn empty() -> (r: Function)
        ensures
            r@.code == Seq::<InstructionModel>::empty(),
            r@.argument_names == Seq::<Seq<char>>::empty(),
            r@.environment == Map::<Seq<char>, ValueModel>::empty(),
    {
        let code: Vec<Instruction> = Vec::new();
        let argument_names: Vec<String> = Vec::new();
        assert(code_model(code@) =~= Seq::<InstructionModel>::empty());
        assert(texts(argument_names@) =~= Seq::<Seq<char>>::empty());
        Function { code, argument_names, environment: Environment::new() }
    }

    /// Replaces the captured environment.
    pub fn add_environment(&mut self, environment: Environment)
        ensures
            final(self)@.code == old(self)@.code,
            final(self)@.argument_names == old(self)@.argument_names,
            final(self)@.environment == environment@,
    {
        self.environment = environment;
    }

    /// The captured bindings.
    pub fn get_environment(&self) -> (r: &Environment)
        ensures
            r@ == self@.environment,
    {
        &self.environment
    }

    /// The instruction at an index, or `None` past the end of the code.
    pub fn get_instruction(&self, index: usize) -> (r: Option<&Instruction>)
        ensures
            match r {
                Some(i) => index < self@.code.len() && i@ == self@.code[index as int],
                None => index >= self@.code.len(),
            },
    {
        if index < self.code.len() {
            Some(&self.code[index])
        } else {
            None
        }
    }
}

} // verus!
