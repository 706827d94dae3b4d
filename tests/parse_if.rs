use csml_interpreter::lexer::Input;
use csml_interpreter::parser::parse_if;

#[test]
fn ok_normal_if1() {
    let inp = Input::new("if ( event ) { say \"hola\" }");
    match parse_if(&inp, 0) {
        Ok(..) => {}
        Err(e) => panic!("{:?}", e),
    }
}

#[test]
fn ok_normal_if2() {
    let inp = Input::new("if ( event ) { say \"hola\"  say event }");
    match parse_if(&inp, 0) {
        Ok(..) => {}
        Err(e) => panic!("{:?}", e),
    }
}

#[test]
fn ok_normal_else_if1() {
    let inp = Input::new("if ( event ) { say \"hola\" } else if ( event ) { say \" hola 2 \" }");
    match parse_if(&inp, 0) {
        Ok(..) => {}
        Err(e) => panic!("{:?}", e),
    }
}

#[test]
fn err_normal_if1() {
    let inp = Input::new("if ");
    match parse_if(&inp, 0) {
        Ok(..) => panic!("need to fail"),
        Err(..) => {}
    }
}

#[test]
fn err_normal_if2() {
    let inp = Input::new("if ( event ) ");
    match parse_if(&inp, 0) {
        Ok(..) => panic!("need to fail"),
        Err(..) => {}
    }
}

#[test]
fn err_normal_if3() {
    let inp = Input::new("if ( event { say \"hola\"  say event }");
    match parse_if(&inp, 0) {
        Ok(..) => panic!("need to fail"),
        Err(..) => {}
    }
}
