use csml_interpreter::context::Data;
use csml_interpreter::error::ErrorKind;
use csml_interpreter::eval::{evaluate_condition, valid_condition};
use csml_interpreter::literal::{cmp_lit, Infix, Literal};
use csml_interpreter::ast::Expr;

fn data() -> Data {
    Data { step: "start".to_string(), event: None, memory: vec![], step_vars: vec![], resume: None }
}

fn num(v: i64) -> Expr {
    Expr::LitExpr(Literal::IntLiteral(v))
}

fn string(s: &str) -> Expr {
    Expr::LitExpr(Literal::StringLiteral(s.to_string()))
}

#[test]
fn greater_than_literals() {
    let r = evaluate_condition(&Infix::GreaterThan, &num(5), &num(3), &data()).unwrap();
    assert_eq!(r, Literal::BoolLiteral(true));
}

#[test]
fn equal_strings() {
    let r = evaluate_condition(&Infix::Equal, &string("a"), &string("a"), &data()).unwrap();
    assert_eq!(r, Literal::BoolLiteral(true));
}

#[test]
fn add_number_and_string_fails() {
    let err = evaluate_condition(&Infix::Addition, &num(5), &string("x"), &data()).unwrap_err();
    assert_eq!(err.kind, ErrorKind::TypeMismatch);
}

#[test]
fn or_with_one_failing_side_is_true() {
    let missing = Expr::IdentExpr("missing".to_string());
    let r = evaluate_condition(&Infix::Or, &num(1), &missing, &data()).unwrap();
    assert_eq!(r, Literal::BoolLiteral(true));
}

#[test]
fn and_with_one_failing_side_is_false() {
    let missing = Expr::IdentExpr("missing".to_string());
    let r = evaluate_condition(&Infix::And, &missing, &num(1), &data()).unwrap();
    assert_eq!(r, Literal::BoolLiteral(false));
}

#[test]
fn or_of_two_false_values_is_true() {
    let f = Expr::LitExpr(Literal::BoolLiteral(false));
    let r = evaluate_condition(&Infix::Or, &f, &f, &data()).unwrap();
    assert_eq!(r, Literal::BoolLiteral(true));
}

#[test]
fn arithmetic_values() {
    let d = data();
    assert_eq!(cmp_lit(&Infix::Addition, Ok(Literal::IntLiteral(2)), Ok(Literal::IntLiteral(3))).unwrap(), Literal::IntLiteral(5));
    assert_eq!(cmp_lit(&Infix::Subtraction, Ok(Literal::IntLiteral(2)), Ok(Literal::IntLiteral(3))).unwrap(), Literal::IntLiteral(-1));
    assert_eq!(cmp_lit(&Infix::Multiply, Ok(Literal::IntLiteral(4)), Ok(Literal::IntLiteral(-3))).unwrap(), Literal::IntLiteral(-12));
    assert_eq!(evaluate_condition(&Infix::Divide, &num(-7), &num(2), &d).unwrap(), Literal::IntLiteral(-3));
    assert_eq!(
        evaluate_condition(&Infix::Addition, &string("ab"), &string("cd"), &d).unwrap(),
        Literal::StringLiteral("abcd".to_string())
    );
}

#[test]
fn division_by_zero() {
    let err = evaluate_condition(&Infix::Divide, &num(1), &num(0), &data()).unwrap_err();
    assert_eq!(err.kind, ErrorKind::DivisionByZero);
}

#[test]
fn overflow_is_an_error() {
    let err = evaluate_condition(&Infix::Addition, &num(i64::MAX), &num(1), &data()).unwrap_err();
    assert_eq!(err.kind, ErrorKind::Overflow);
    let err = evaluate_condition(&Infix::Divide, &num(i64::MIN), &num(-1), &data()).unwrap_err();
    assert_eq!(err.kind, ErrorKind::Overflow);
}

#[test]
fn cross_type_comparison_fails() {
    let err = evaluate_condition(&Infix::Equal, &num(1), &string("1"), &data()).unwrap_err();
    assert_eq!(err.kind, ErrorKind::TypeMismatch);
    let err = evaluate_condition(&Infix::LessThan, &num(1), &string("b"), &data()).unwrap_err();
    assert_eq!(err.kind, ErrorKind::TypeMismatch);
}

#[test]
fn strings_order_lexicographically() {
    let d = data();
    assert_eq!(evaluate_condition(&Infix::GreaterThan, &string("b"), &string("a"), &d).unwrap(), Literal::BoolLiteral(true));
    assert_eq!(evaluate_condition(&Infix::LessThan, &string("ab"), &string("abc"), &d).unwrap(), Literal::BoolLiteral(true));
    assert_eq!(evaluate_condition(&Infix::LessThanEqual, &string("b"), &string("ab"), &d).unwrap(), Literal::BoolLiteral(false));
    assert_eq!(evaluate_condition(&Infix::GreaterThanEqual, &string("x"), &string("x"), &d).unwrap(), Literal::BoolLiteral(true));
}

#[test]
fn booleans_order_false_first() {
    let d = data();
    let t = Expr::LitExpr(Literal::BoolLiteral(true));
    let f = Expr::LitExpr(Literal::BoolLiteral(false));
    assert_eq!(evaluate_condition(&Infix::LessThan, &f, &t, &d).unwrap(), Literal::BoolLiteral(true));
    assert_eq!(evaluate_condition(&Infix::GreaterThan, &f, &t, &d).unwrap(), Literal::BoolLiteral(false));
}

#[test]
fn unknown_variable_names_it() {
    let missing = Expr::IdentExpr("missing".to_string());
    let err = evaluate_condition(&Infix::Equal, &missing, &num(1), &data()).unwrap_err();
    assert_eq!(err.kind, ErrorKind::UnknownVariable);
    assert_eq!(err.detail, "missing");
}

#[test]
fn nested_conditions() {
    let left = Expr::InfixExpr(Infix::GreaterThan, Box::new(num(5)), Box::new(num(3)));
    let right = Expr::InfixExpr(Infix::Equal, Box::new(num(2)), Box::new(num(2)));
    let r = evaluate_condition(&Infix::Equal, &left, &right, &data()).unwrap();
    assert_eq!(r, Literal::BoolLiteral(true));
}

#[test]
fn guards() {
    let mut d = data();
    assert!(!valid_condition(&Expr::IdentExpr("event".to_string()), &d));
    d.event = Some(Literal::StringLiteral("hi".to_string()));
    assert!(valid_condition(&Expr::IdentExpr("event".to_string()), &d));
    let false_cmp = Expr::InfixExpr(Infix::LessThan, Box::new(num(5)), Box::new(num(3)));
    assert!(!valid_condition(&false_cmp, &d));
    assert!(valid_condition(&num(0), &d));
}
