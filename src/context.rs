//! The conversation context one turn runs against.
use vstd::prelude::*;
use crate::error::{ErrV, ErrorKind, InterpretError, err_named};
use crate::literal::{LitV, Literal};

verus! {

/// One named value, as held in memory and in step variables.
#[derive(Debug, PartialEq)]
pub struct Memory {
    pub key: String,
    pub value: Literal,
}

pub type MemV = (Seq<char>, LitV);

pub open spec fn mems_view(v: Seq<Memory>) -> Seq<MemV> {
    Seq::new(v.len(), |i: int| (v[i].key@, v[i].value@))
}

/// The value bound last to `key`: later bindings shadow earlier ones.
pub open spec fn lookup(s: Seq<MemV>, key: Seq<char>) -> Option<LitV>
    decreases s.len(),
{
    if s.len() == 0 {
        None
    } else if s.last().0 == key {
        Some(s.last().1)
    } else {
        lookup(s.drop_last(), key)
    }
}

/// The mutable state of one interpretation pass.
#[derive(Debug)]
pub struct Data {
    /// The step being run.
    pub step: String,
    /// The inbound event; present on turns that answer an ask.
    pub event: Option<Literal>,
    /// Durable variables.
    pub memory: Vec<Memory>,
    /// Variables local to the step.
    pub step_vars: Vec<Memory>,
    /// The statement to resume from, restored from a hold.
    pub resume: Option<usize>,
}

pub struct DataV {
    pub step: Seq<char>,
    pub event: Option<LitV>,
    pub memory: Seq<MemV>,
    pub step_vars: Seq<MemV>,
    pub resume: Option<usize>,
}

pub open spec fn opt_lit_view(o: Option<Literal>) -> Option<LitV> {
    match o {
        Some(l) => Some(l@),
        None => None,
    }
}

impl View for Data {
    type V = DataV;

    open spec fn view(&self) -> DataV {
        DataV {
            step: self.step@,
            event: opt_lit_view(self.event),
            memory: mems_view(self.memory@),
            step_vars: mems_view(self.step_vars@),
            resume: self.resume,
        }
    }
}

pub open spec fn event_name() -> Seq<char> {
    seq!['e', 'v', 'e', 'n', 't']
}

/// What an identifier denotes: `event` is the inbound event; any other name
/// is looked up in the step variables, then in memory.
pub open spec fn get_var_spec(name: Seq<char>, d: DataV) -> Result<LitV, ErrV> {
    if name == event_name() {
        match d.event {
            Some(l) => Ok(l),
            None => Err(err_named(ErrorKind::UnknownVariable, name)),
        }
    } else {
        match lookup(d.step_vars, name) {
            Some(l) => Ok(l),
            None => match lookup(d.memory, name) {
                Some(l) => Ok(l),
                None => Err(err_named(ErrorKind::UnknownVariable, name)),
            },
        }
    }
}

pub fn find_memory(v: &Vec<Memory>, key: &String) -> (r: Option<Literal>)
    ensures
        opt_lit_view(r) == lookup(mems_view(v@), key@),
{
    let mut i: usize = v.len();
    assert(v@.subrange(0, i as int) =~= v@);
    while i > 0
        invariant
            i <= v@.len(),
            lookup(mems_view(v@), key@) == lookup(mems_view(v@.subrange(0, i as int)), key@),
        decreases i,
    {
        let ghost s = mems_view(v@.subrange(0, i as int));
        assert(s.drop_last() =~= mems_view(v@.subrange(0, i - 1)));
        i = i - 1;
        if v[i].key.eq(key) {
            return Some(v[i].value.copy());
        }
    }
    assert(mems_view(v@.subrange(0, 0)).len() == 0);
    None
}

fn is_event_name(name: &String) -> (r: bool)
    ensures
        r == (name@ == event_name()),
{
    let s = name.as_str();
    let n = s.unicode_len();
    if n != 5 {
        return false;
    }
    let r = s.get_char(0) == 'e' && s.get_char(1) == 'v' && s.get_char(2) == 'e' && s.get_char(3)
        == 'n' && s.get_char(4) == 't';
    proof {
        if r {
            assert(name@ =~= event_name());
        }
    }
    r
}

/// Resolves an identifier against the event, the step variables and memory.
pub fn get_var(name: &String, data: &Data) -> (r: Result<Literal, InterpretError>)
    ensures
        match r {
            Ok(l) => get_var_spec(name@, data@) == Ok::<LitV, ErrV>(l@),
            Err(e) => get_var_spec(name@, data@) == Err::<LitV, ErrV>(e@),
        },
{
    if is_event_name(name) {
        match &data.event {
            Some(l) => Ok(l.copy()),
            None => Err(InterpretError::named(ErrorKind::UnknownVariable, name)),
        }
    } else {
        match find_memory(&data.step_vars, name) {
            Some(l) => Ok(l),
            None => match find_memory(&data.memory, name) {
                Some(l) => Ok(l),
                None => Err(InterpretError::named(ErrorKind::UnknownVariable, name)),
            },
        }
    }
}

} // verus!
