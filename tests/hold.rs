use csml_interpreter::context::{Data, Memory};
use csml_interpreter::hold::{check_for_hold, make_hold};
use csml_interpreter::literal::Literal;

fn data(step: &str) -> Data {
    Data { step: step.to_string(), event: None, memory: vec![], step_vars: vec![], resume: None }
}

fn vars() -> Vec<Memory> {
    vec![Memory { key: "x".to_string(), value: Literal::IntLiteral(1) }]
}

#[test]
fn hold_digest_is_md5_hex() {
    let h = make_hold(0, vec![], "hello world");
    assert_eq!(h.hash, "5eb63bbbe01eeed093cb22bb8f5acdc3");
    let h = make_hold(0, vec![], "");
    assert_eq!(h.hash, "d41d8cd98f00b204e9800998ecf8427e");
}

#[test]
fn hold_resumes_on_same_flow() {
    let content = "s { say \"a\" say \"b\" hold say \"c\" }";
    let h = make_hold(2, vars(), content);
    let mut d = data("s");
    check_for_hold(&mut d, content, Some(h));
    assert_eq!(d.step, "s");
    assert_eq!(d.step_vars, vars());
    assert_eq!(d.resume, Some(2));
}

#[test]
fn hold_resets_on_changed_flow() {
    let h = make_hold(2, vars(), "s { hold }");
    let mut d = data("s");
    check_for_hold(&mut d, "s { hold say \"new\" }", Some(h));
    assert_eq!(d.step, "start");
    assert!(d.step_vars.is_empty());
    assert_eq!(d.resume, None);
}

#[test]
fn no_hold_leaves_context() {
    let mut d = data("s");
    check_for_hold(&mut d, "s { }", None);
    assert_eq!(d.step, "s");
    assert_eq!(d.resume, None);
}
