//! What one turn produces: messages, memory writes and the next target.
use vstd::prelude::*;
use crate::context::{MemV, Memory, lookup, mems_view};
use crate::literal::{LitV, Literal};

verus! {

/// An outbound message. Builtin keywords give their own content type; any
/// other call is an external action whose name is the content type.
#[derive(Debug, PartialEq)]
pub struct Message {
    pub content: Literal,
    pub content_type: String,
}

pub struct MsgV {
    pub content: LitV,
    pub content_type: Seq<char>,
}

impl View for Message {
    type V = MsgV;

    open spec fn view(&self) -> MsgV {
        MsgV { content: self.content@, content_type: self.content_type@ }
    }
}

/// The effect of one action.
#[derive(Debug, PartialEq)]
pub enum MessageType {
    Msg(Message),
    Assign { name: String, value: Literal },
    Empty,
}

pub enum MsgTypeV {
    Msg(MsgV),
    Assign(Seq<char>, LitV),
    Empty,
}

impl View for MessageType {
    type V = MsgTypeV;

    open spec fn view(&self) -> MsgTypeV {
        match self {
            MessageType::Msg(m) => MsgTypeV::Msg(m@),
            MessageType::Assign { name, value } => MsgTypeV::Assign(name@, value@),
            MessageType::Empty => MsgTypeV::Empty,
        }
    }
}

/// The accumulator of one turn.
#[derive(Debug, PartialEq)]
pub struct TurnOutput {
    pub messages: Vec<Message>,
    /// Memory writes in order; a later write to a key wins.
    pub memories: Vec<Memory>,
    pub next_step: Option<String>,
    pub next_flow: Option<String>,
    /// The statement of the step to resume from when the turn suspended.
    pub hold: Option<usize>,
}

pub struct OutV {
    pub messages: Seq<MsgV>,
    pub memories: Seq<MemV>,
    pub next_step: Option<Seq<char>>,
    pub next_flow: Option<Seq<char>>,
    pub hold: Option<usize>,
}

pub open spec fn opt_str_view(o: Option<String>) -> Option<Seq<char>> {
    match o {
        Some(s) => Some(s@),
        None => None,
    }
}

pub open spec fn msgs_view(v: Seq<Message>) -> Seq<MsgV> {
    Seq::new(v.len(), |i: int| v[i]@)
}

impl View for TurnOutput {
    type V = OutV;

    open spec fn view(&self) -> OutV {
        OutV {
            messages: msgs_view(self.messages@),
            memories: mems_view(self.memories@),
            next_step: opt_str_view(self.next_step),
            next_flow: opt_str_view(self.next_flow),
            hold: self.hold,
        }
    }
}

pub open spec fn empty_out() -> OutV {
    OutV {
        messages: Seq::empty(),
        memories: Seq::empty(),
        next_step: None,
        next_flow: None,
        hold: None,
    }
}

pub open spec fn later<T>(a: Option<T>, b: Option<T>) -> Option<T> {
    if b is Some {
        b
    } else {
        a
    }
}

/// `a` followed by `b`: messages and memory writes concatenate, and each
/// target of `b` that is set overrides that of `a`.
pub open spec fn merge_spec(a: OutV, b: OutV) -> OutV {
    OutV {
        messages: a.messages + b.messages,
        memories: a.memories + b.memories,
        next_step: later(a.next_step, b.next_step),
        next_flow: later(a.next_flow, b.next_flow),
        hold: later(a.hold, b.hold),
    }
}

/// What one action adds to the accumulator.
pub open spec fn add_spec(root: OutV, action: MsgTypeV) -> OutV {
    match action {
        MsgTypeV::Msg(m) => OutV { messages: root.messages.push(m), ..root },
        MsgTypeV::Assign(k, v) => OutV { memories: root.memories.push((k, v)), ..root },
        MsgTypeV::Empty => root,
    }
}

impl TurnOutput {
    pub fn new() -> (r: TurnOutput)
        ensures
            r@ == empty_out(),
    {
        let r = TurnOutput {
            messages: Vec::new(),
            memories: Vec::new(),
            next_step: None,
            next_flow: None,
            hold: None,
        };
        assert(r@.messages =~= Seq::<MsgV>::empty());
        assert(r@.memories =~= Seq::<MemV>::empty());
        r
    }

    /// Appends `other` after `self`.
    pub fn merge(self, other: TurnOutput) -> (r: TurnOutput)
        ensures
            r@ == merge_spec(self@, other@),
    {
        let TurnOutput { mut messages, mut memories, next_step, next_flow, hold } = self;
        let TurnOutput {
            messages: mut m2,
            memories: mut mem2,
            next_step: s2,
            next_flow: f2,
            hold: h2,
        } = other;
        let ghost (a1, a2, b1, b2) = (messages@, m2@, memories@, mem2@);
        messages.append(&mut m2);
        memories.append(&mut mem2);
        let r = TurnOutput {
            messages,
            memories,
            next_step: if s2.is_some() { s2 } else { next_step },
            next_flow: if f2.is_some() { f2 } else { next_flow },
            hold: if h2.is_some() { h2 } else { hold },
        };
        assert(msgs_view(a1 + a2) =~= msgs_view(a1) + msgs_view(a2));
        assert(mems_view(b1 + b2) =~= mems_view(b1) + mems_view(b2));
        r
    }
}

/// Adds the effect of one action to the accumulator.
pub fn add_to_message(root: TurnOutput, action: MessageType) -> (r: TurnOutput)
    ensures
        r@ == add_spec(root@, action@),
{
    let mut root = root;
    match action {
        MessageType::Msg(msg) => {
            let ghost old_m = root.messages@;
            root.messages.push(msg);
            assert(msgs_view(root.messages@) =~= msgs_view(old_m).push(msg@));
        },
        MessageType::Assign { name, value } => {
            let ghost old_m = root.memories@;
            let ghost kv = (name@, value@);
            root.memories.push(Memory { key: name, value });
            assert(mems_view(root.memories@) =~= mems_view(old_m).push(kv));
        },
        MessageType::Empty => {},
    }
    root
}

proof fn lemma_lookup_concat(a: Seq<MemV>, b: Seq<MemV>, key: Seq<char>)
    ensures
        lookup(a + b, key) == later(lookup(a, key), lookup(b, key)),
    decreases b.len(),
{
    if b.len() == 0 {
        assert(a + b =~= a);
    } else {
        assert((a + b).drop_last() =~= a + b.drop_last());
        lemma_lookup_concat(a, b.drop_last(), key);
    }
}

/// Merging two outputs keeps the messages of both in order, lets a memory
/// write of the second win over one of the first to the same key, and takes
/// the second's next step and next flow wherever it sets them.
pub proof fn lemma_merge_order(a: OutV, b: OutV, key: Seq<char>)
    ensures
        merge_spec(a, b).messages == a.messages + b.messages,
        lookup(merge_spec(a, b).memories, key) == later(lookup(a.memories, key), lookup(b.memories, key)),
        merge_spec(a, b).next_step == (if b.next_step is Some { b.next_step } else { a.next_step }),
        merge_spec(a, b).next_flow == (if b.next_flow is Some { b.next_flow } else { a.next_flow }),
{
    lemma_lookup_concat(a.memories, b.memories, key);
}

} // verus!
