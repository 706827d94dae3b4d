use csml_interpreter::ast::{BlockType, Expr, Flow, GotoType, ReservedFunction, Step};
use csml_interpreter::context::{Data, Memory};
use csml_interpreter::error::ErrorKind;
use csml_interpreter::interpreter::{interpret_block, run_step};
use csml_interpreter::literal::Literal;
use csml_interpreter::parser::parse;

fn data() -> Data {
    Data { step: "start".to_string(), event: None, memory: vec![], step_vars: vec![], resume: None }
}

fn empty_flow() -> Flow {
    Flow { steps: vec![] }
}

fn say(s: &str) -> Expr {
    Expr::FunctionExpr(ReservedFunction::Say(Box::new(Expr::LitExpr(Literal::StringLiteral(
        s.to_string(),
    )))))
}

#[test]
fn goto_skips_rest_of_block() {
    let block = vec![
        Expr::FunctionExpr(ReservedFunction::Goto(GotoType::Step, "b".to_string())),
        say("unreachable"),
    ];
    let mut d = data();
    let out = interpret_block(&block, &empty_flow(), &mut d).unwrap();
    assert!(out.messages.is_empty());
    assert_eq!(out.next_step, Some("b".to_string()));
}

#[test]
fn response_only_without_event_is_empty() {
    let group = Expr::Block {
        block_type: BlockType::AskResponse,
        arg: vec![Expr::Block { block_type: BlockType::Response, arg: vec![say("got it")] }],
    };
    let mut d = data();
    let out = interpret_block(&[group], &empty_flow(), &mut d).unwrap();
    assert!(out.messages.is_empty());
    assert_eq!(out.next_step, None);
    assert_eq!(out.hold, None);
}

#[test]
fn event_selects_response() {
    let group = Expr::Block {
        block_type: BlockType::AskResponse,
        arg: vec![
            Expr::Block { block_type: BlockType::Ask, arg: vec![say("question")] },
            Expr::Block { block_type: BlockType::Response, arg: vec![say("answer")] },
        ],
    };
    let mut d = data();
    d.event = Some(Literal::StringLiteral("yes".to_string()));
    let out = interpret_block(&[group], &empty_flow(), &mut d).unwrap();
    assert_eq!(out.messages.len(), 1);
    assert_eq!(out.messages[0].content, Literal::StringLiteral("answer".to_string()));
    assert_eq!(out.hold, None);
}

#[test]
fn ask_without_event_suspends_at_group() {
    let group = Expr::Block {
        block_type: BlockType::AskResponse,
        arg: vec![
            Expr::Block { block_type: BlockType::Ask, arg: vec![say("question")] },
            Expr::Block { block_type: BlockType::Response, arg: vec![say("answer")] },
        ],
    };
    let mut d = data();
    let out = interpret_block(&[say("hi"), group, say("later")], &empty_flow(), &mut d).unwrap();
    assert_eq!(out.messages.len(), 2);
    assert_eq!(out.messages[1].content, Literal::StringLiteral("question".to_string()));
    assert_eq!(out.hold, Some(1));
}

#[test]
fn hold_statement_suspends_after_itself() {
    let block = vec![say("a"), Expr::FunctionExpr(ReservedFunction::Hold), say("b")];
    let mut d = data();
    let out = interpret_block(&block, &empty_flow(), &mut d).unwrap();
    assert_eq!(out.messages.len(), 1);
    assert_eq!(out.hold, Some(2));
}

#[test]
fn import_missing_step_fails() {
    let block = vec![Expr::FunctionExpr(ReservedFunction::Import("nowhere".to_string()))];
    let mut d = data();
    let err = interpret_block(&block, &empty_flow(), &mut d).unwrap_err();
    assert_eq!(err.kind, ErrorKind::StepNotFound);
    assert_eq!(err.detail, "nowhere");
}

#[test]
fn import_runs_other_step() {
    let flow = Flow { steps: vec![Step { name: "greet".to_string(), actions: vec![say("hello")] }] };
    let block = vec![Expr::FunctionExpr(ReservedFunction::Import("greet".to_string())), say("after")];
    let mut d = data();
    let out = interpret_block(&block, &flow, &mut d).unwrap();
    assert_eq!(out.messages.len(), 2);
    assert_eq!(out.messages[0].content, Literal::StringLiteral("hello".to_string()));
}

#[test]
fn self_import_is_bounded() {
    let flow = Flow {
        steps: vec![Step {
            name: "loop".to_string(),
            actions: vec![Expr::FunctionExpr(ReservedFunction::Import("loop".to_string()))],
        }],
    };
    let mut d = data();
    let err = interpret_block(&flow.steps[0].actions, &flow, &mut d).unwrap_err();
    assert_eq!(err.kind, ErrorKind::DepthExceeded);
}

#[test]
fn run_parsed_flow() {
    let flow = parse(
        "start { x = 2 * 3  if (x == 6) { say x } else { say \"no\" }  remember x as six  text(\"hi\") as t  say t }",
    )
    .unwrap();
    let mut d = data();
    let out = run_step(&flow, &mut d).unwrap();
    assert_eq!(out.messages.len(), 3);
    assert_eq!(out.messages[0].content, Literal::IntLiteral(6));
    assert_eq!(out.messages[0].content_type, "text");
    assert_eq!(out.messages[1].content_type, "text");
    assert_eq!(out.messages[2].content, Literal::StringLiteral("hi".to_string()));
    assert_eq!(out.memories, vec![Memory { key: "six".to_string(), value: Literal::IntLiteral(6) }]);
    assert_eq!(d.step_vars.len(), 2);
}

#[test]
fn typing_needs_an_integer() {
    let flow = parse("start { typing(\"soon\") }").unwrap();
    let mut d = data();
    let err = run_step(&flow, &mut d).unwrap_err();
    assert_eq!(err.kind, ErrorKind::InvalidAction);
    let flow = parse("start { typing(500) weather(\"paris\") }").unwrap();
    let mut d = data();
    let out = run_step(&flow, &mut d).unwrap();
    assert_eq!(out.messages[0].content_type, "typing");
    assert_eq!(out.messages[1].content_type, "weather");
}

#[test]
fn run_step_resumes_at_index() {
    let flow = parse("start { say \"a\" say \"b\" say \"c\" }").unwrap();
    let mut d = data();
    d.resume = Some(2);
    let out = run_step(&flow, &mut d).unwrap();
    assert_eq!(out.messages.len(), 1);
    assert_eq!(out.messages[0].content, Literal::StringLiteral("c".to_string()));
    assert_eq!(d.resume, None);
}

#[test]
fn run_step_unknown_step() {
    let flow = parse("start { say \"a\" }").unwrap();
    let mut d = data();
    d.step = "other".to_string();
    let err = run_step(&flow, &mut d).unwrap_err();
    assert_eq!(err.kind, ErrorKind::StepNotFound);
}

#[test]
fn goto_flow_sets_both_targets() {
    let flow = parse("start { goto flow billing say \"x\" }").unwrap();
    let mut d = data();
    let out = run_step(&flow, &mut d).unwrap();
    assert_eq!(out.next_flow, Some("billing".to_string()));
    assert_eq!(out.next_step, Some("start".to_string()));
    assert!(out.messages.is_empty());
}

#[test]
fn remember_of_unknown_variable_fails() {
    let flow = parse("start { say \"a\" remember missing as m say \"b\" }").unwrap();
    let mut d = data();
    let err = run_step(&flow, &mut d).unwrap_err();
    assert_eq!(err.kind, ErrorKind::UnknownVariable);
    assert_eq!(err.detail, "missing");
}
