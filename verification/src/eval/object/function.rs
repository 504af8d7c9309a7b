//! Function values.
use crate::parser::ast::nodes::IdentNode;
use crate::parser::ast::statement::BlockStatement;
use std::rc::Rc;
use vstd::prelude::*;

verus! {

/// A function value: the parameters and the body of the literal, and the
/// scope in which the literal was evaluated.
#[derive(Debug, PartialEq)]
pub struct Function {
    pub params: Rc<Vec<IdentNode>>,
    pub body: Rc<BlockStatement>,
    /// The handle of the defining scope.
    pub environment: usize,
}

/// `Rc::clone`: another owner of the same value.
#[verifier::external_body]
pub(crate) fn share<T>(value: &Rc<T>) -> (shared: Rc<T>)
    ensures
        shared == *value,
{
    Rc::clone(value)
}

impl Clone for Function {
    fn clone(&self) -> (copy: Self)
        ensures
            copy == *self,
    {
        Function {
            params: share(&self.params),
            body: share(&self.body),
            environment: self.environment,
        }
    }
}

} // verus!
