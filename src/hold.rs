//! Suspension and resumption of a step across turns.
use vstd::prelude::*;
use md5::{Digest, Md5};
use crate::context::{Data, DataV, MemV, Memory, mems_view};

verus! {

/// The MD5 digest of a text, written as 32 lowercase hexadecimal digits.
pub uninterp spec fn md5_hex_of(content: Seq<char>) -> Seq<char>;

/// Relies on `md5::Md5` of the md-5 crate, through `Digest::input` and
/// `Digest::result`: the digest of the text's UTF-8 bytes, formatted in
/// lowercase hex. It depends on the text alone.
#[verifier::external_body]
fn flow_digest(content: &str) -> (r: String)
    ensures
        r@ == md5_hex_of(content@),
{
    let mut hash = Md5::new();
    hash.input(content.as_bytes());
    format!("{:x}", hash.result())
}

/// A suspended position: the statement to resume from, the step variables
/// at suspension, and the digest of the flow's source at that time.
#[derive(Debug, PartialEq)]
pub struct HoldState {
    pub index: usize,
    pub step_vars: Vec<Memory>,
    pub hash: String,
}

pub struct HoldV {
    pub index: usize,
    pub step_vars: Seq<MemV>,
    pub hash: Seq<char>,
}

impl View for HoldState {
    type V = HoldV;

    open spec fn view(&self) -> HoldV {
        HoldV { index: self.index, step_vars: mems_view(self.step_vars@), hash: self.hash@ }
    }
}

pub open spec fn opt_hold_view(h: Option<HoldState>) -> Option<HoldV> {
    match h {
        Some(x) => Some(x@),
        None => None,
    }
}

pub open spec fn hold_spec(index: usize, vars: Seq<MemV>, content: Seq<char>) -> HoldV {
    HoldV { index, step_vars: vars, hash: md5_hex_of(content) }
}

/// The context at the start of a turn, given the hold read for the client:
/// none leaves it as it is; one whose digest matches the flow's source
/// restores its step variables and resume point; a stale one restarts the
/// conversation at step `start` with no step variables.
pub open spec fn resume_spec(saved: Option<HoldV>, content: Seq<char>, d: DataV) -> DataV {
    match saved {
        None => d,
        Some(h) => if h.hash == md5_hex_of(content) {
            DataV { step_vars: h.step_vars, resume: Some(h.index), ..d }
        } else {
            DataV { step: "start"@, step_vars: Seq::empty(), resume: None, ..d }
        },
    }
}

/// Records a suspension at statement `index` of a flow whose source is
/// `flow_content`.
pub fn make_hold(index: usize, step_vars: Vec<Memory>, flow_content: &str) -> (r: HoldState)
    ensures
        r@ == hold_spec(index, mems_view(step_vars@), flow_content@),
{
    HoldState { index, step_vars, hash: flow_digest(flow_content) }
}

/// Applies the hold read for this client, if any, to the context.
pub fn check_for_hold(data: &mut Data, flow_content: &str, saved: Option<HoldState>)
    ensures
        final(data)@ == resume_spec(opt_hold_view(saved), flow_content@, old(data)@),
{
    match saved {
        None => {},
        Some(hold) => {
            let new_hash = flow_digest(flow_content);
            if new_hash.eq(&hold.hash) {
                data.step_vars = hold.step_vars;
                data.resume = Some(hold.index);
            } else {
                data.step = "start".to_owned();
                data.step_vars = Vec::new();
                data.resume = None;
                assert(mems_view(data.step_vars@) =~= Seq::<MemV>::empty());
            }
        },
    }
}

/// Suspending and resuming on the same flow source restores the step
/// variables and the resume point; resuming after the source's digest
/// changed restarts at step `start` with no step variables.
pub proof fn lemma_hold_round_trip(
    index: usize,
    vars: Seq<MemV>,
    content: Seq<char>,
    later: Seq<char>,
    d: DataV,
)
    ensures
        md5_hex_of(later) == md5_hex_of(content) ==> resume_spec(
            Some(hold_spec(index, vars, content)),
            later,
            d,
        ) == (DataV { step_vars: vars, resume: Some(index), ..d }),
        md5_hex_of(later) != md5_hex_of(content) ==> resume_spec(
            Some(hold_spec(index, vars, content)),
            later,
            d,
        ) == (DataV { step: "start"@, step_vars: Seq::empty(), resume: None, ..d }),
{
}

} // verus!
