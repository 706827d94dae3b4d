//! Error kinds surfaced while evaluating a flow.
use vstd::prelude::*;

verus! {

/// The closed set of evaluation failures.
#[derive(Clone, Copy, Debug, PartialEq, Eq, Structural)]
pub enum ErrorKind {
    /// An identifier that names no event, step variable or memory.
    UnknownVariable,
    /// Operands whose shapes the operator does not accept.
    TypeMismatch,
    /// Integer arithmetic whose result leaves the 64-bit range.
    Overflow,
    /// Division with a zero divisor.
    DivisionByZero,
    /// A condition whose operands are neither values nor infix expressions.
    InvalidCondition,
    /// A statement or an argument that is not a recognised action.
    InvalidAction,
    /// An import of a step that the flow does not define.
    StepNotFound,
    /// A flow name that the bot does not define.
    FlowNotFound,
    /// Blocks or imports nested deeper than the interpreter allows.
    DepthExceeded,
}

/// What a failure is: its kind and the name it concerns (empty when none).
pub struct ErrV {
    pub kind: ErrorKind,
    pub detail: Seq<char>,
}

#[derive(Debug)]
pub struct InterpretError {
    pub kind: ErrorKind,
    pub detail: String,
}

impl View for InterpretError {
    type V = ErrV;

    open spec fn view(&self) -> ErrV {
        ErrV { kind: self.kind, detail: self.detail@ }
    }
}

pub open spec fn err_of(kind: ErrorKind) -> ErrV {
    ErrV { kind, detail: Seq::empty() }
}

pub open spec fn err_named(kind: ErrorKind, name: Seq<char>) -> ErrV {
    ErrV { kind, detail: name }
}

impl InterpretError {
    pub fn new(kind: ErrorKind) -> (r: InterpretError)
        ensures
            r@ == err_of(kind),
    {
        InterpretError { kind, detail: String::new() }
    }

    pub fn named(kind: ErrorKind, name: &String) -> (r: InterpretError)
        ensures
            r@ == err_named(kind, name@),
    {
        InterpretError { kind, detail: name.clone() }
    }

    pub fn copy(&self) -> (r: InterpretError)
        ensures
            r@ == self@,
    {
        InterpretError { kind: self.kind, detail: self.detail.clone() }
    }
}

} // verus!
