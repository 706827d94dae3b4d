//! Execution of statement blocks against a conversation context.
use vstd::prelude::*;
use crate::ast::{BlockType, Expr, Flow, GotoType, ReservedFunction, find_step_spec};
use crate::context::{Data, DataV, Memory, mems_view};
use crate::error::{ErrV, ErrorKind, InterpretError, err_named, err_of};
use crate::eval::{eval_expr, evaluate, valid_condition, valid_spec};
use crate::lexer::is_named;
use crate::literal::{LitV, Literal, res_view};
use crate::output::{
    Message, MessageType, MsgTypeV, MsgV, OutV, TurnOutput, add_spec, add_to_message, empty_out,
    merge_spec, opt_str_view,
};

verus! {

/// How deeply blocks and imports may nest within one turn.
pub const MAX_DEPTH: u64 = 64;

pub open spec fn mres_view(r: Result<MessageType, InterpretError>) -> Result<MsgTypeV, ErrV> {
    match r {
        Ok(m) => Ok(m@),
        Err(e) => Err(e@),
    }
}

pub open spec fn ores_view(r: Result<TurnOutput, InterpretError>) -> Result<OutV, ErrV> {
    match r {
        Ok(o) => Ok(o@),
        Err(e) => Err(e@),
    }
}

pub open spec fn push_var(d: DataV, k: Seq<char>, v: LitV) -> DataV {
    DataV { step_vars: d.step_vars.push((k, v)), ..d }
}

/// A builtin or external call: `typing` and `wait` take an integer; every
/// keyword becomes the content type of a message holding the argument.
pub open spec fn builtin_spec(name: Seq<char>, arg: Expr, d: DataV) -> Result<MsgTypeV, ErrV> {
    match eval_expr(arg, d) {
        Err(e) => Err(e),
        Ok(v) => if (name == "typing"@ || name == "wait"@) && !(v is Int) {
            Err(err_of(ErrorKind::InvalidAction))
        } else {
            Ok(MsgTypeV::Msg(MsgV { content: v, content_type: name }))
        },
    }
}

pub open spec fn text_msg(v: LitV) -> MsgTypeV {
    MsgTypeV::Msg(MsgV { content: v, content_type: "text"@ })
}

/// The effect of an action expression, and the context after it: a value
/// becomes a text message, a call goes to the builtins, and an `as` call
/// also binds its message content to a step variable.
pub open spec fn fn_spec(e: Expr, d: DataV) -> (Result<MsgTypeV, ErrV>, DataV)
    decreases e,
{
    match e {
        Expr::FunctionExpr(ReservedFunction::As(name, inner)) => {
            let (r, d2) = fn_spec(*inner, d);
            match r {
                Ok(MsgTypeV::Msg(m)) => (r, push_var(d2, name@, m.content)),
                _ => (r, d2),
            }
        },
        Expr::FunctionExpr(ReservedFunction::Normal(name, arg)) => (builtin_spec(name@, *arg, d), d),
        Expr::LitExpr(l) => (Ok(text_msg(l@)), d),
        Expr::InfixExpr(..) | Expr::IdentExpr(..) => match eval_expr(e, d) {
            Ok(v) => (Ok(text_msg(v)), d),
            Err(er) => (Err(er), d),
        },
        _ => (Err(err_of(ErrorKind::InvalidAction)), d),
    }
}

pub open spec fn goto_spec(acc: OutV, t: GotoType, name: Seq<char>) -> OutV {
    match t {
        GotoType::Flow => OutV { next_flow: Some(name), next_step: Some("start"@), ..acc },
        _ => OutV { next_step: Some(name), ..acc },
    }
}

/// Whether a sub-block of an ask/response group runs in this phase.
pub open spec fn phase_matches(e: Expr, has_event: bool) -> bool {
    match e {
        Expr::Block { block_type, .. } => (block_type == BlockType::Ask && !has_event) || (
        block_type == BlockType::Response && has_event),
        _ => false,
    }
}

/// The first sub-block at or after `i` that runs in this phase.
pub open spec fn pick_from(v: Seq<Expr>, has_event: bool, i: int) -> Option<int>
    decreases v.len() - i,
{
    if i < 0 || i >= v.len() {
        None
    } else if phase_matches(v[i], has_event) {
        Some(i)
    } else {
        pick_from(v, has_event, i + 1)
    }
}

pub open spec fn then_merge(acc: OutV, r: (Result<OutV, ErrV>, DataV)) -> (Result<OutV, ErrV>, DataV) {
    match r.0 {
        Ok(o) => (Ok(merge_spec(acc, o)), r.1),
        Err(e) => (Err(e), r.1),
    }
}

pub open spec fn then_add(acc: OutV, r: (Result<MsgTypeV, ErrV>, DataV)) -> (Result<OutV, ErrV>, DataV) {
    match r.0 {
        Ok(m) => (Ok(add_spec(acc, m)), r.1),
        Err(e) => (Err(e), r.1),
    }
}

pub open spec fn with_hold(r: (Result<OutV, ErrV>, DataV), at: usize) -> (Result<OutV, ErrV>, DataV) {
    match r.0 {
        Ok(o) => (Ok(OutV { hold: Some(at), ..o }), r.1),
        Err(e) => (Err(e), r.1),
    }
}

/// One statement run on accumulator `acc`.
pub open spec fn stmt_spec(e: Expr, acc: OutV, flow: Flow, d: DataV, fuel: nat) -> (Result<
    OutV,
    ErrV,
>, DataV)
    decreases fuel, 0int, 0int,
{
    match e {
        Expr::FunctionExpr(f) => match f {
            ReservedFunction::Say(arg) => then_add(acc, fn_spec(*arg, d)),
            ReservedFunction::Goto(t, n) => (Ok(goto_spec(acc, t, n@)), d),
            ReservedFunction::Remember(name, v) => match eval_expr(*v, d) {
                Ok(l) => (Ok(add_spec(acc, MsgTypeV::Assign(name@, l))), d),
                Err(er) => (Err(er), d),
            },
            ReservedFunction::Import(name) => match find_step_spec(flow, name@) {
                None => (Err(err_named(ErrorKind::StepNotFound, name@)), d),
                Some(j) => if fuel == 0 {
                    (Err(err_of(ErrorKind::DepthExceeded)), d)
                } else {
                    then_merge(
                        acc,
                        run_from(flow.steps@[j].actions@, 0, empty_out(), flow, d, (fuel - 1) as nat),
                    )
                },
            },
            ReservedFunction::Use(arg) => {
                let (r, d2) = fn_spec(*arg, d);
                match r {
                    Ok(_) => (Ok(acc), d2),
                    Err(er) => (Err(er), d2),
                }
            },
            ReservedFunction::Assign(name, v) => match eval_expr(*v, d) {
                Ok(l) => (Ok(acc), push_var(d, name@, l)),
                Err(er) => (Err(er), d),
            },
            ReservedFunction::Hold => (Ok(OutV { hold: Some(0), ..acc }), d),
            _ => then_add(acc, fn_spec(e, d)),
        },
        Expr::IfExpr { cond, consequence, else_branch } => if fuel == 0 {
            (Err(err_of(ErrorKind::DepthExceeded)), d)
        } else {
            let body = if valid_spec(*cond, d) {
                consequence@
            } else {
                else_branch@
            };
            then_merge(acc, run_from(body, 0, empty_out(), flow, d, (fuel - 1) as nat))
        },
        Expr::Block { block_type: BlockType::AskResponse, arg } => match pick_from(
            arg@,
            d.event is Some,
            0,
        ) {
            None => (Ok(acc), d),
            Some(k) => if fuel == 0 {
                (Err(err_of(ErrorKind::DepthExceeded)), d)
            } else {
                match arg@[k] {
                    Expr::Block { block_type, arg: sub } => {
                        let r = then_merge(
                            acc,
                            run_from(sub@, 0, empty_out(), flow, d, (fuel - 1) as nat),
                        );
                        if block_type == BlockType::Ask {
                            with_hold(r, 0)
                        } else {
                            r
                        }
                    },
                    _ => (Ok(acc), d),
                }
            },
        },
        _ => (Err(err_of(ErrorKind::InvalidAction)), d),
    }
}

/// Where a turn that suspended in statement `i` resumes: at the same
/// ask/response group, so that its response half runs, and after any
/// other statement.
pub open spec fn hold_point(e: Expr, i: int) -> usize {
    if e is Block {
        i as usize
    } else {
        (i + 1) as usize
    }
}

/// Runs statements `i..` on accumulator `acc`. The block stops at the first
/// failure, before any statement once a next step is set, and after a
/// statement that suspends the turn.
pub open spec fn run_from(actions: Seq<Expr>, i: int, acc: OutV, flow: Flow, d: DataV, fuel: nat) -> (Result<
    OutV,
    ErrV,
>, DataV)
    decreases fuel, 1int, actions.len() - i,
{
    if i < 0 || i >= actions.len() || acc.next_step is Some {
        (Ok(acc), d)
    } else {
        let (r, d2) = stmt_spec(actions[i], acc, flow, d, fuel);
        match r {
            Err(er) => (Err(er), d2),
            Ok(o) => if o.hold is Some {
                (Ok(OutV { hold: Some(hold_point(actions[i], i)), ..o }), d2)
            } else {
                run_from(actions, i + 1, o, flow, d2, fuel)
            },
        }
    }
}

/// The outcome of a whole block.
pub open spec fn block_spec(actions: Seq<Expr>, flow: Flow, d: DataV) -> (Result<OutV, ErrV>, DataV) {
    run_from(actions, 0, empty_out(), flow, d, MAX_DEPTH as nat)
}

fn push_step_var(data: &mut Data, key: String, value: Literal)
    ensures
        final(data)@ == push_var(old(data)@, key@, value@),
{
    let ghost kv = (key@, value@);
    let ghost old_v = data.step_vars@;
    data.step_vars.push(Memory { key, value });
    assert(mems_view(data.step_vars@) =~= mems_view(old_v).push(kv));
}

/// Dispatches a builtin keyword or an external action.
fn match_builtin(builtin: &String, args: &Expr, data: &Data) -> (r: Result<MessageType, InterpretError>)
    ensures
        mres_view(r) == builtin_spec(builtin@, *args, data@),
{
    match evaluate(args, data) {
        Err(e) => Err(e),
        Ok(v) => {
            let needs_int = is_named(builtin, "typing") || is_named(builtin, "wait");
            let is_int = match v {
                Literal::IntLiteral(_) => true,
                _ => false,
            };
            if needs_int && !is_int {
                Err(InterpretError::new(ErrorKind::InvalidAction))
            } else {
                Ok(MessageType::Msg(Message { content: v, content_type: builtin.clone() }))
            }
        },
    }
}

fn text_message(v: Literal) -> (r: MessageType)
    ensures
        r@ == text_msg(v@),
{
    MessageType::Msg(Message { content: v, content_type: "text".to_owned() })
}

/// The effect of an action expression.
fn match_functions(action: &Expr, data: &mut Data) -> (r: Result<MessageType, InterpretError>)
    ensures
        (mres_view(r), final(data)@) == fn_spec(*action, old(data)@),
    decreases action,
{
    match action {
        Expr::FunctionExpr(ReservedFunction::As(name, expr)) => {
            let msg = match_functions(expr, data);
            match msg {
                Ok(MessageType::Msg(m)) => {
                    push_step_var(data, name.clone(), m.content.copy());
                    Ok(MessageType::Msg(m))
                },
                _ => msg,
            }
        },
        Expr::FunctionExpr(ReservedFunction::Normal(name, variable)) => match_builtin(
            name,
            variable,
            data,
        ),
        Expr::LitExpr(l) => Ok(text_message(l.copy())),
        Expr::InfixExpr(..) | Expr::IdentExpr(..) => match evaluate(action, data) {
            Ok(v) => Ok(text_message(v)),
            Err(e) => Err(e),
        },
        _ => Err(InterpretError::new(ErrorKind::InvalidAction)),
    }
}

fn merge_result(root: TurnOutput, r: Result<TurnOutput, InterpretError>) -> (res: Result<
    TurnOutput,
    InterpretError,
>)
    ensures
        ores_view(res) == then_merge(root@, (ores_view(r), arbitrary())).0,
{
    match r {
        Ok(o) => Ok(root.merge(o)),
        Err(e) => Err(e),
    }
}

/// Runs a reserved-word statement other than a call.
fn match_actions(
    function: &ReservedFunction,
    root: TurnOutput,
    flow: &Flow,
    data: &mut Data,
    fuel: u64,
) -> (r: Result<TurnOutput, InterpretError>)
    requires
        !(function is Normal || function is As),
    ensures
        (ores_view(r), final(data)@) == stmt_spec(
            Expr::FunctionExpr(*function),
            root@,
            *flow,
            old(data)@,
            fuel as nat,
        ),
    decreases fuel, 0int,
{
    let mut root = root;
    match function {
        ReservedFunction::Say(arg) => {
            match match_functions(arg, data) {
                Ok(m) => Ok(add_to_message(root, m)),
                Err(e) => Err(e),
            }
        },
        ReservedFunction::Goto(t, step_name) => {
            match t {
                GotoType::Flow => {
                    root.next_flow = Some(step_name.clone());
                    root.next_step = Some("start".to_owned());
                },
                _ => {
                    root.next_step = Some(step_name.clone());
                },
            }
            Ok(root)
        },
        ReservedFunction::Remember(name, variable) => {
            match evaluate(variable, data) {
                Ok(v) => Ok(add_to_message(root, MessageType::Assign { name: name.clone(), value: v })),
                Err(e) => Err(e),
            }
        },
        ReservedFunction::Import(name) => {
            match flow.find_step(name) {
                Some(j) => {
                    if fuel == 0 {
                        return Err(InterpretError::new(ErrorKind::DepthExceeded));
                    }
                    let r = interpret_from(flow.steps[j].actions.as_slice(), 0, flow, data, fuel - 1);
                    let res = merge_result(root, r);
                    res
                },
                None => Err(InterpretError::named(ErrorKind::StepNotFound, name)),
            }
        },
        ReservedFunction::Use(arg) => {
            match match_functions(arg, data) {
                Ok(_) => Ok(root),
                Err(e) => Err(e),
            }
        },
        ReservedFunction::Assign(name, v) => {
            match evaluate(v, data) {
                Ok(l) => {
                    push_step_var(data, name.clone(), l);
                    Ok(root)
                },
                Err(e) => Err(e),
            }
        },
        ReservedFunction::Hold => {
            root.hold = Some(0);
            Ok(root)
        },
        _ => Err(InterpretError::new(ErrorKind::InvalidAction)),
    }
}

/// Runs the sub-block of an ask/response group that belongs to this turn's
/// phase: the ask half when no event came in, the response half when one did.
fn match_ask_response(
    vec: &Vec<Expr>,
    root: TurnOutput,
    flow: &Flow,
    data: &mut Data,
    fuel: u64,
) -> (r: Result<TurnOutput, InterpretError>)
    ensures
        (ores_view(r), final(data)@) == stmt_spec(
            Expr::Block { block_type: BlockType::AskResponse, arg: *vec },
            root@,
            *flow,
            old(data)@,
            fuel as nat,
        ),
    decreases fuel, 0int,
{
    let has_event = data.event.is_some();
    let mut k: usize = 0;
    while k < vec.len()
        invariant
            k <= vec@.len(),
            data@ == old(data)@,
            has_event == (data@.event is Some),
            pick_from(vec@, has_event, 0) == pick_from(vec@, has_event, k as int),
        decreases vec@.len() - k,
    {
        let matched = match &vec[k] {
            Expr::Block { block_type: BlockType::Ask, .. } => !has_event,
            Expr::Block { block_type: BlockType::Response, .. } => has_event,
            _ => false,
        };
        if matched {
            if fuel == 0 {
                return Err(InterpretError::new(ErrorKind::DepthExceeded));
            }
            match &vec[k] {
                Expr::Block { block_type, arg } => {
                    let r = interpret_from(arg.as_slice(), 0, flow, data, fuel - 1);
                    let res = merge_result(root, r);
                    if *block_type == BlockType::Ask {
                        match res {
                            Ok(mut o) => {
                                o.hold = Some(0);
                                return Ok(o);
                            },
                            Err(e) => return Err(e),
                        }
                    }
                    return res;
                },
                _ => {
                    return Ok(root);
                },
            }
        }
        k = k + 1;
    }
    Ok(root)
}

/// Runs one statement.
fn exec_stmt(action: &Expr, root: TurnOutput, flow: &Flow, data: &mut Data, fuel: u64) -> (r: Result<
    TurnOutput,
    InterpretError,
>)
    ensures
        (ores_view(r), final(data)@) == stmt_spec(*action, root@, *flow, old(data)@, fuel as nat),
    decreases fuel, 1int,
{
    match action {
        Expr::FunctionExpr(ReservedFunction::Normal(..)) | Expr::FunctionExpr(
            ReservedFunction::As(..),
        ) => {
            match match_functions(action, data) {
                Ok(m) => Ok(add_to_message(root, m)),
                Err(e) => Err(e),
            }
        },
        Expr::FunctionExpr(fun) => match_actions(fun, root, flow, data, fuel),
        Expr::IfExpr { cond, consequence, else_branch } => {
            if fuel == 0 {
                return Err(InterpretError::new(ErrorKind::DepthExceeded));
            }
            let r = if valid_condition(cond, data) {
                interpret_from(consequence.as_slice(), 0, flow, data, fuel - 1)
            } else {
                interpret_from(else_branch.as_slice(), 0, flow, data, fuel - 1)
            };
            merge_result(root, r)
        },
        Expr::Block { block_type: BlockType::AskResponse, arg } => match_ask_response(
            arg,
            root,
            flow,
            data,
            fuel,
        ),
        _ => Err(InterpretError::new(ErrorKind::InvalidAction)),
    }
}

/// Runs `actions` from statement `start`.
fn interpret_from(actions: &[Expr], start: usize, flow: &Flow, data: &mut Data, fuel: u64) -> (r: Result<
    TurnOutput,
    InterpretError,
>)
    ensures
        (ores_view(r), final(data)@) == run_from(
            actions@,
            start as int,
            empty_out(),
            *flow,
            old(data)@,
            fuel as nat,
        ),
    decreases fuel, 2int,
{
    let mut root = TurnOutput::new();
    let mut i: usize = start;
    while i < actions.len()
        invariant
            run_from(actions@, start as int, empty_out(), *flow, old(data)@, fuel as nat) == run_from(
                actions@,
                i as int,
                root@,
                *flow,
                data@,
                fuel as nat,
            ),
        decreases actions@.len() - i,
    {
        if root.next_step.is_some() {
            return Ok(root);
        }
        let r = exec_stmt(&actions[i], root, flow, data, fuel);
        match r {
            Err(e) => {
                return Err(e);
            },
            Ok(mut o) => {
                if o.hold.is_some() {
                    let at = match &actions[i] {
                        Expr::Block { .. } => i,
                        _ => i + 1,
                    };
                    o.hold = Some(at);
                    return Ok(o);
                }
                root = o;
            },
        }
        i = i + 1;
    }
    Ok(root)
}

/// Runs a statement block against the context and returns the turn's output.
pub fn interpret_block(actions: &[Expr], flow: &Flow, data: &mut Data) -> (r: Result<
    TurnOutput,
    InterpretError,
>)
    ensures
        (ores_view(r), final(data)@) == block_spec(actions@, *flow, old(data)@),
{
    interpret_from(actions, 0, flow, data, MAX_DEPTH)
}

/// One turn of the context's current step: it starts at the resume point
/// restored from a hold, or at the first statement, and consumes that point.
pub open spec fn step_run_spec(flow: Flow, d: DataV) -> (Result<OutV, ErrV>, DataV) {
    match find_step_spec(flow, d.step) {
        None => (Err(err_named(ErrorKind::StepNotFound, d.step)), d),
        Some(j) => run_from(
            flow.steps@[j].actions@,
            match d.resume {
                Some(i) => i as int,
                None => 0,
            },
            empty_out(),
            flow,
            DataV { resume: None, ..d },
            MAX_DEPTH as nat,
        ),
    }
}

/// Runs the context's current step for one turn.
pub fn run_step(flow: &Flow, data: &mut Data) -> (r: Result<TurnOutput, InterpretError>)
    ensures
        (ores_view(r), final(data)@) == step_run_spec(*flow, old(data)@),
{
    match flow.find_step(&data.step) {
        None => Err(InterpretError::named(ErrorKind::StepNotFound, &data.step)),
        Some(j) => {
            let start: usize = match data.resume {
                Some(i) => i,
                None => 0,
            };
            data.resume = None;
            interpret_from(flow.steps[j].actions.as_slice(), start, flow, data, MAX_DEPTH)
        },
    }
}

/// An import of a step that the flow does not define fails at run time,
/// naming the step; parsing never checks it.
pub proof fn lemma_missing_import_fails(name: String, acc: OutV, flow: Flow, d: DataV, fuel: nat)
    requires
        find_step_spec(flow, name@) is None,
    ensures
        stmt_spec(Expr::FunctionExpr(ReservedFunction::Import(name)), acc, flow, d, fuel) == (
        Err::<OutV, ErrV>(err_named(ErrorKind::StepNotFound, name@)), d),
{
}

/// A `goto` ends its block: once a statement sets the next step, no later
/// statement of the block runs, and the output and context are those after
/// that statement.
pub proof fn lemma_goto_stops_block(actions: Seq<Expr>, i: int, acc: OutV, flow: Flow, d: DataV, fuel: nat)
    requires
        0 <= i < actions.len(),
        acc.next_step is None,
        acc.hold is None,
        actions[i] matches Expr::FunctionExpr(ReservedFunction::Goto(t, n)),
    ensures
        run_from(actions, i, acc, flow, d, fuel) == (Ok::<OutV, ErrV>(
            stmt_spec(actions[i], acc, flow, d, fuel).0->Ok_0,
        ), d),
        stmt_spec(actions[i], acc, flow, d, fuel).0->Ok_0.messages == acc.messages,
{
    let o = stmt_spec(actions[i], acc, flow, d, fuel).0->Ok_0;
    assert(o.next_step is Some);
    assert(run_from(actions, i + 1, o, flow, d, fuel) == (Ok::<OutV, ErrV>(o), d));
}

proof fn lemma_no_phase_match(v: Seq<Expr>, has_event: bool, i: int)
    requires
        0 <= i <= v.len(),
        forall|k: int| 0 <= k < v.len() ==> !phase_matches(#[trigger] v[k], has_event),
    ensures
        pick_from(v, has_event, i) is None,
    decreases v.len() - i,
{
    if i < v.len() {
        lemma_no_phase_match(v, has_event, i + 1);
    }
}

/// Selecting the half of an ask/response group is no failure: when no
/// event came in and the group holds only response halves, it runs nothing
/// and leaves the output and the context as they were.
pub proof fn lemma_response_waits_for_event(arg: Vec<Expr>, acc: OutV, flow: Flow, d: DataV, fuel: nat)
    requires
        d.event is None,
        forall|k: int|
            0 <= k < arg@.len() ==> (#[trigger] arg@[k] matches Expr::Block {
                block_type: BlockType::Response,
                ..
            }),
    ensures
        stmt_spec(Expr::Block { block_type: BlockType::AskResponse, arg }, acc, flow, d, fuel) == (
        Ok::<OutV, ErrV>(acc), d),
{
    assert forall|k: int| 0 <= k < arg@.len() implies !phase_matches(#[trigger] arg@[k], false) by {
        assert(arg@[k] matches Expr::Block { block_type: BlockType::Response, .. });
    }
    lemma_no_phase_match(arg@, false, 0);
}

/// With an inbound event, an ask/response group whose first half is an ask
/// and whose second is the response `resp` skips the ask and runs `resp`.
pub proof fn lemma_event_selects_response(
    arg: Vec<Expr>,
    resp: Vec<Expr>,
    acc: OutV,
    flow: Flow,
    d: DataV,
    fuel: nat,
)
    requires
        d.event is Some,
        fuel > 0,
        arg@.len() == 2,
        arg@[0] matches Expr::Block { block_type: BlockType::Ask, .. },
        arg@[1] == (Expr::Block { block_type: BlockType::Response, arg: resp }),
    ensures
        stmt_spec(Expr::Block { block_type: BlockType::AskResponse, arg }, acc, flow, d, fuel)
            == then_merge(acc, run_from(resp@, 0, empty_out(), flow, d, (fuel - 1) as nat)),
{
    assert(!phase_matches(arg@[0], true));
    assert(phase_matches(arg@[1], true));
    assert(pick_from(arg@, true, 1) == Some(1int));
}

} // verus!
