//! A bot: its flows' sources and the flow a conversation starts in.
use vstd::prelude::*;
use crate::ast::Flow;
use crate::error::{ErrorKind, InterpretError, err_named};
use crate::grammar::flow_syntax;
use crate::lexer::ParseError;
use crate::parser::parse;

verus! {

/// The source of one flow.
#[derive(Debug, PartialEq)]
pub struct CsmlFlow {
    pub name: String,
    pub content: String,
}

/// A bot definition.
#[derive(Debug, PartialEq)]
pub struct CsmlBot {
    pub flows: Vec<CsmlFlow>,
    pub default_flow: String,
}

/// Index of the first flow at or after `i` called `name`.
pub open spec fn flow_from(flows: Seq<CsmlFlow>, name: Seq<char>, i: int) -> Option<int>
    decreases flows.len() - i,
{
    if i < 0 || i >= flows.len() {
        None
    } else if flows[i].name@ == name {
        Some(i)
    } else {
        flow_from(flows, name, i + 1)
    }
}

/// Index of the first flow called `name`.
pub fn get_flow_by_name(bot: &CsmlBot, name: &String) -> (r: Option<usize>)
    ensures
        r is Some ==> flow_from(bot.flows@, name@, 0) == Some(r->Some_0 as int) && r->Some_0
            < bot.flows@.len(),
        r is None ==> flow_from(bot.flows@, name@, 0) is None,
{
    let mut i: usize = 0;
    while i < bot.flows.len()
        invariant
            i <= bot.flows@.len(),
            flow_from(bot.flows@, name@, 0) == flow_from(bot.flows@, name@, i as int),
        decreases bot.flows@.len() - i,
    {
        if bot.flows[i].name.eq(name) {
            return Some(i);
        }
        i = i + 1;
    }
    None
}

/// The index of the flow a conversation starts in; a bot whose default
/// flow it does not define is an error naming that flow.
pub fn get_default_flow(bot: &CsmlBot) -> (r: Result<usize, InterpretError>)
    ensures
        match flow_from(bot.flows@, bot.default_flow@, 0) {
            Some(i) => r matches Ok(j) && j == i,
            None => r matches Err(e) && e@ == err_named(ErrorKind::FlowNotFound, bot.default_flow@),
        },
{
    match get_flow_by_name(bot, &bot.default_flow) {
        Some(i) => Ok(i),
        None => Err(InterpretError::named(ErrorKind::FlowNotFound, &bot.default_flow)),
    }
}

/// The names of a flow's steps, in source order.
pub fn step_names(flow: &Flow) -> (r: Vec<String>)
    ensures
        r@.len() == flow.steps@.len(),
        forall|i: int| 0 <= i < r@.len() ==> #[trigger] r@[i]@ == flow.steps@[i].name@,
{
    let mut names: Vec<String> = Vec::new();
    let mut i: usize = 0;
    while i < flow.steps.len()
        invariant
            i <= flow.steps@.len(),
            names@.len() == i,
            forall|k: int| 0 <= k < i ==> #[trigger] names@[k]@ == flow.steps@[k].name@,
        decreases flow.steps@.len() - i,
    {
        names.push(flow.steps[i].name.clone());
        i = i + 1;
    }
    names
}

/// The step names of the bot's flow called `flow_name`; none when the bot
/// has no such flow or its source does not parse.
pub fn get_steps_from_flow(bot: &CsmlBot, flow_name: &String) -> (r: Vec<String>)
    ensures
        flow_from(bot.flows@, flow_name@, 0) is None ==> r@.len() == 0,
        flow_from(bot.flows@, flow_name@, 0) matches Some(i) && flow_syntax(bot.flows@[i].content@)
            is Err ==> r@.len() == 0,
{
    match get_flow_by_name(bot, flow_name) {
        None => Vec::new(),
        Some(i) => match parse(bot.flows[i].content.as_str()) {
            Ok(flow) => step_names(&flow),
            Err(_) => Vec::new(),
        },
    }
}

/// Whether every flow of the bot parses.
pub open spec fn all_flows_parse(flows: Seq<CsmlFlow>) -> bool {
    forall|k: int| 0 <= k < flows.len() ==> flow_syntax((#[trigger] flows[k]).content@) is Ok
}

/// Checks that the bot defines its default flow and that every flow parses.
/// The errors come in the order of the flows, a missing default flow last.
pub fn validate_bot(bot: &CsmlBot) -> (r: Result<bool, Vec<ParseError>>)
    ensures
        r is Ok <==> (all_flows_parse(bot.flows@) && flow_from(bot.flows@, bot.default_flow@, 0) is Some),
        r matches Ok(b) ==> b,
        r matches Err(v) ==> v@.len() > 0,
{
    let mut errors: Vec<ParseError> = Vec::new();
    let mut i: usize = 0;
    while i < bot.flows.len()
        invariant
            i <= bot.flows@.len(),
            errors@.len() == 0 <==> forall|k: int|
                0 <= k < i ==> flow_syntax((#[trigger] bot.flows@[k]).content@) is Ok,
        decreases bot.flows@.len() - i,
    {
        match parse(bot.flows[i].content.as_str()) {
            Ok(_) => {},
            Err(e) => errors.push(e),
        }
        i = i + 1;
    }
    if get_flow_by_name(bot, &bot.default_flow).is_none() {
        errors.push(ParseError { position: 0, message: "default flow not found".to_owned() });
    }
    if errors.len() == 0 {
        Ok(true)
    } else {
        Err(errors)
    }
}

} // verus!
