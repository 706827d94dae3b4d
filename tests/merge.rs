use csml_interpreter::context::Memory;
use csml_interpreter::literal::Literal;
use csml_interpreter::output::{Message, TurnOutput};

fn msg(s: &str) -> Message {
    Message { content: Literal::StringLiteral(s.to_string()), content_type: "text".to_string() }
}

fn out(m: Message, next: Option<&str>, memories: Vec<Memory>) -> TurnOutput {
    TurnOutput {
        messages: vec![m],
        memories,
        next_step: next.map(|s| s.to_string()),
        next_flow: None,
        hold: None,
    }
}

#[test]
fn merge_concatenates_and_overrides() {
    let a = out(msg("m1"), None, vec![]);
    let b = out(msg("m2"), Some("x"), vec![]);
    let r = a.merge(b);
    assert_eq!(r.messages, vec![msg("m1"), msg("m2")]);
    assert_eq!(r.next_step, Some("x".to_string()));
}

#[test]
fn merge_keeps_first_target_when_second_has_none() {
    let a = out(msg("m1"), Some("y"), vec![]);
    let b = out(msg("m2"), None, vec![]);
    assert_eq!(a.merge(b).next_step, Some("y".to_string()));
}

#[test]
fn merge_memory_later_wins() {
    let k = |v: i64| Memory { key: "k".to_string(), value: Literal::IntLiteral(v) };
    let a = out(msg("m1"), None, vec![k(1)]);
    let b = out(msg("m2"), None, vec![k(2)]);
    let r = a.merge(b);
    assert_eq!(r.memories.last().unwrap().value, Literal::IntLiteral(2));
    assert_eq!(r.memories.len(), 2);
}
