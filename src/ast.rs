//! The syntax tree of a flow.
use vstd::prelude::*;
use crate::literal::{Infix, Literal};

verus! {

/// Where a `goto` leads.
#[derive(Clone, Copy, Debug, PartialEq, Eq, Structural)]
pub enum GotoType {
    Step,
    Flow,
    Hook,
}

/// The role of a brace-delimited sub-block.
#[derive(Clone, Copy, Debug, PartialEq, Eq, Structural)]
pub enum BlockType {
    Plain,
    Ask,
    Response,
    AskResponse,
}

/// Statements introduced by a reserved word, and calls.
#[derive(Debug, PartialEq)]
pub enum ReservedFunction {
    /// `say expr`: produce a message.
    Say(Box<Expr>),
    /// `goto [step|flow|@] name`.
    Goto(GotoType, String),
    /// `remember expr as name`: write durable memory.
    Remember(String, Box<Expr>),
    /// `import step name`: run another step of the flow in place.
    Import(String),
    /// `name(arg)`: a builtin or an external action.
    Normal(String, Box<Expr>),
    /// `call as name`: a call whose message content is bound to a step variable.
    As(String, Box<Expr>),
    /// `use expr`: evaluate for its effects on step variables only.
    Use(Box<Expr>),
    /// `name = expr`: bind a step variable.
    Assign(String, Box<Expr>),
    /// `hold`: suspend the turn here.
    Hold,
}

/// A node of the syntax tree.
#[derive(Debug, PartialEq)]
pub enum Expr {
    LitExpr(Literal),
    IdentExpr(String),
    InfixExpr(Infix, Box<Expr>, Box<Expr>),
    FunctionExpr(ReservedFunction),
    /// `if (cond) { consequence } else { else_branch }`; an `else if` is an
    /// else branch that holds one `IfExpr`, and no `else` an empty one.
    IfExpr { cond: Box<Expr>, consequence: Vec<Expr>, else_branch: Vec<Expr> },
    Block { block_type: BlockType, arg: Vec<Expr> },
    Hook(String),
}

/// A named statement list.
#[derive(Debug, PartialEq)]
pub struct Step {
    pub name: String,
    pub actions: Vec<Expr>,
}

/// The parsed steps of one flow, in source order; no two share a name.
#[derive(Debug, PartialEq)]
pub struct Flow {
    pub steps: Vec<Step>,
}

/// The names of `steps`, in order.
pub open spec fn names_of(steps: Seq<Step>) -> Seq<Seq<char>> {
    Seq::new(steps.len(), |i: int| steps[i].name@)
}

/// No two steps share a name, so a name identifies one step.
pub open spec fn names_unique(steps: Seq<Step>) -> bool {
    forall|i: int, j: int|
        0 <= i < j < steps.len() ==> (#[trigger] steps[i]).name@ != (#[trigger] steps[j]).name@
}

/// Whether a step called `name` is among `steps`.
pub fn has_step(steps: &Vec<Step>, name: &String) -> (r: bool)
    ensures
        r == names_of(steps@).contains(name@),
{
    let mut i: usize = 0;
    while i < steps.len()
        invariant
            i <= steps@.len(),
            forall|k: int| 0 <= k < i ==> #[trigger] steps@[k].name@ != name@,
        decreases steps@.len() - i,
    {
        if steps[i].name.eq(name) {
            assert(names_of(steps@)[i as int] == name@);
            return true;
        }
        i = i + 1;
    }
    proof {
        if names_of(steps@).contains(name@) {
            let k = choose|k: int| 0 <= k < names_of(steps@).len() && names_of(steps@)[k] == name@;
            assert(steps@[k].name@ == name@);
        }
    }
    false
}

/// Index of the first step of `steps` at or after `i` named `name`.
pub open spec fn find_from(steps: Seq<Step>, name: Seq<char>, i: int) -> Option<int>
    decreases steps.len() - i,
{
    if i < 0 || i >= steps.len() {
        None
    } else if steps[i].name@ == name {
        Some(i)
    } else {
        find_from(steps, name, i + 1)
    }
}

pub open spec fn find_step_spec(flow: Flow, name: Seq<char>) -> Option<int> {
    find_from(flow.steps@, name, 0)
}

impl Flow {
    /// Index of the first step called `name`.
    pub fn find_step(&self, name: &String) -> (r: Option<usize>)
        ensures
            r is Some ==> find_step_spec(*self, name@) == Some(r->Some_0 as int) && r->Some_0
                < self.steps@.len(),
            r is None ==> find_step_spec(*self, name@) is None,
    {
        let mut i: usize = 0;
        while i < self.steps.len()
            invariant
                0 <= i <= self.steps@.len(),
                find_from(self.steps@, name@, 0) == find_from(self.steps@, name@, i as int),
            decreases self.steps@.len() - i,
        {
            if self.steps[i].name.eq(name) {
                return Some(i);
            }
            i = i + 1;
        }
        None
    }
}

} // verus!
