use csml_interpreter::ast::{BlockType, Expr, GotoType, ReservedFunction};
use csml_interpreter::lexer::Input;
use csml_interpreter::literal::{Infix, Literal};
use csml_interpreter::parser::{parse, parse_expr, parse_hook, parse_statement};

const SOURCE: &str = "start {\n  // greet\n  say \"hello\"\n  x = 1 + 2 * 3\n  if (x > 5) { goto step end } else { say \"small\" }\n}\nend {\n  remember x as total\n  ask { say \"name?\" } response { say event }\n}\n";

#[test]
fn parse_is_deterministic() {
    let a = parse(SOURCE).unwrap();
    let b = parse(SOURCE).unwrap();
    assert_eq!(a, b);
    assert_eq!(a.steps.len(), 2);
    assert_eq!(a.steps[0].name, "start");
    assert_eq!(a.steps[1].name, "end");
    assert_eq!(a.steps[0].actions.len(), 3);
}

#[test]
fn parse_precedence() {
    let inp = Input::new("1 + 2 * 3");
    let (e, q) = parse_expr(&inp, 0).unwrap();
    assert_eq!(q, 9);
    let expected = Expr::InfixExpr(
        Infix::Addition,
        Box::new(Expr::LitExpr(Literal::IntLiteral(1))),
        Box::new(Expr::InfixExpr(
            Infix::Multiply,
            Box::new(Expr::LitExpr(Literal::IntLiteral(2))),
            Box::new(Expr::LitExpr(Literal::IntLiteral(3))),
        )),
    );
    assert_eq!(e, expected);
}

#[test]
fn parse_goto_kinds() {
    let inp = Input::new("goto flow other");
    let (e, _) = parse_statement(&inp, 0).unwrap();
    assert_eq!(e, Expr::FunctionExpr(ReservedFunction::Goto(GotoType::Flow, "other".to_string())));
    let inp = Input::new("goto @hook1");
    let (e, _) = parse_statement(&inp, 0).unwrap();
    assert_eq!(e, Expr::FunctionExpr(ReservedFunction::Goto(GotoType::Hook, "hook1".to_string())));
    let inp = Input::new("goto next");
    let (e, _) = parse_statement(&inp, 0).unwrap();
    assert_eq!(e, Expr::FunctionExpr(ReservedFunction::Goto(GotoType::Step, "next".to_string())));
}

#[test]
fn parse_goto_missing_name() {
    let inp = Input::new("goto step ");
    let err = parse_statement(&inp, 0).unwrap_err();
    assert_eq!(err.message, "missing step name after goto");
}

#[test]
fn parse_remember_missing_as() {
    let inp = Input::new("remember x");
    let err = parse_statement(&inp, 0).unwrap_err();
    assert_eq!(err.message, "missing as name after remember var");
}

#[test]
fn parse_unterminated_block() {
    let err = parse("start { say \"hi\" ").unwrap_err();
    assert_eq!(err.message, "unterminated block");
}

#[test]
fn parse_unterminated_string() {
    let err = parse("start { say \"hi }").unwrap_err();
    assert_eq!(err.message, "unterminated string");
    assert_eq!(err.position, 12);
}

#[test]
fn parse_integer_too_large() {
    let err = parse("start { say 99999999999999999999 }").unwrap_err();
    assert_eq!(err.message, "integer literal too large");
}

#[test]
fn parse_ask_response_group() {
    let inp = Input::new("response { say event }");
    let (e, _) = parse_statement(&inp, 0).unwrap();
    match e {
        Expr::Block { block_type: BlockType::AskResponse, arg } => {
            assert_eq!(arg.len(), 1);
            assert!(matches!(arg[0], Expr::Block { block_type: BlockType::Response, .. }));
        }
        _ => panic!("not an ask/response group"),
    }
}

#[test]
fn parse_call_as_variable() {
    let inp = Input::new("text(\"hi\") as greeting");
    let (e, _) = parse_statement(&inp, 0).unwrap();
    let call = Expr::FunctionExpr(ReservedFunction::Normal(
        "text".to_string(),
        Box::new(Expr::LitExpr(Literal::StringLiteral("hi".to_string()))),
    ));
    assert_eq!(e, Expr::FunctionExpr(ReservedFunction::As("greeting".to_string(), Box::new(call))));
}

#[test]
fn parse_hook_reference() {
    let inp = Input::new(" @payment");
    let (e, q) = parse_hook(&inp, 0).unwrap();
    assert_eq!(e, Expr::Hook("payment".to_string()));
    assert_eq!(q, 9);
}

#[test]
fn keyword_needs_word_boundary() {
    let inp = Input::new("sayings = 1");
    let (e, _) = parse_statement(&inp, 0).unwrap();
    assert!(matches!(e, Expr::FunctionExpr(ReservedFunction::Assign(..))));
}

#[test]
fn comments_are_skipped() {
    let flow = parse("// intro\nstart { // first\n say 1 // trailing\n}\n// end").unwrap();
    assert_eq!(flow.steps.len(), 1);
    assert_eq!(flow.steps[0].actions.len(), 1);
}

#[test]
fn statement_errors() {
    let err = parse_statement(&Input::new("   "), 0).unwrap_err();
    assert_eq!(err.message, "expected a statement");
    assert_eq!(err.position, 3);
    let err = parse_statement(&Input::new("if x"), 0).unwrap_err();
    assert_eq!(err.message, "missing ( after if");
    let err = parse_statement(&Input::new("import step"), 0).unwrap_err();
    assert_eq!(err.message, "missing step name after import");
}

#[test]
fn remember_error_position() {
    let err = parse_statement(&Input::new("remember x"), 0).unwrap_err();
    assert_eq!(err.message, "missing as name after remember var");
    assert_eq!(err.position, 10);
    let err = parse_statement(&Input::new("goto step "), 0).unwrap_err();
    assert_eq!(err.position, 9);
}

#[test]
fn duplicate_step_name_is_rejected() {
    let err = parse("start { say 1 }\nstart { say 2 }").unwrap_err();
    assert_eq!(err.message, "duplicate step name");
    assert_eq!(err.position, 16);
}
