//! The expression tree: a closed union of five node kinds, each exclusively
//! owning its children.  Trees are built once by a caller and never mutated.

use vstd::prelude::*;

verus! {

/// A literal integer.
pub struct Number {
    pub value: i32,
}

/// A variable reference, looked up by name at evaluation time.
pub struct Id {
    pub value: String,
}

/// A binary sum; the left operand is evaluated before the right one.
pub struct Add {
    pub left: Box<Ast>,
    pub right: Box<Ast>,
}

/// A conditional: a nonzero condition selects the first branch, zero the
/// second.
/// Exactly one of the two branches is evaluated.
pub struct If {
    pub condition: Box<Ast>,
    pub then_branch: Box<Ast>,
    pub else_branch: Box<Ast>,
}

/// A binding: `value` is evaluated, `param` is bound to the result in the
/// shared environment, and `next` is evaluated in the mutated environment.
pub struct Let {
    pub param: String,
    pub value: Box<Ast>,
    pub next: Box<Ast>,
}

/// One node of an expression tree.  The set of kinds is closed: the
/// evaluator handles every variant with no wildcard case.
pub enum Ast {
    Let(Let),
    Number(Number),
    Add(Add),
    If(If),
    Id(Id),
}

impl Number {
    pub fn new(value: i32) -> (r: Self)
        ensures
            r.value == value,
    {
        Self { value }
    }
}

impl Id {
    pub fn new(value: String) -> (r: Self)
        ensures
            r.value == value,
    {
        Self { value }
    }
}

impl Add {
    pub fn new(left: Box<Ast>, right: Box<Ast>) -> (r: Self)
        ensures
            r.left == left,
            r.right == right,
    {
        Self { left, right }
    }
}

impl If {
    pub fn new(condition: Box<Ast>, then_branch: Box<Ast>, else_branch: Box<Ast>) -> (r: Self)
        ensures
            r.condition == condition,
            r.then_branch == then_branch,
            r.else_branch == else_branch,
    {
        Self { condition, then_branch, else_branch }
    }
}

impl Let {
    pub fn new(param: String, value: Box<Ast>, next: Box<Ast>) -> (r: Self)
        ensures
            r.param == param,
            r.value == value,
            r.next == next,
    {
        Self { param, value, next }
    }
}

} // verus!
