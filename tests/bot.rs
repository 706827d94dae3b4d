use csml_interpreter::bot::{get_default_flow, get_steps_from_flow, validate_bot, CsmlBot, CsmlFlow};
use csml_interpreter::error::ErrorKind;

fn bot(default_flow: &str) -> CsmlBot {
    CsmlBot {
        flows: vec![
            CsmlFlow { name: "main".to_string(), content: "start { say \"hi\" } end { hold }".to_string() },
            CsmlFlow { name: "broken".to_string(), content: "start { say ".to_string() },
        ],
        default_flow: default_flow.to_string(),
    }
}

#[test]
fn default_flow_found() {
    assert_eq!(get_default_flow(&bot("main")).unwrap(), 0);
}

#[test]
fn default_flow_missing() {
    let err = get_default_flow(&bot("other")).unwrap_err();
    assert_eq!(err.kind, ErrorKind::FlowNotFound);
    assert_eq!(err.detail, "other");
}

#[test]
fn steps_of_flow() {
    let b = bot("main");
    assert_eq!(get_steps_from_flow(&b, &"main".to_string()), vec!["start".to_string(), "end".to_string()]);
    assert!(get_steps_from_flow(&b, &"broken".to_string()).is_empty());
    assert!(get_steps_from_flow(&b, &"none".to_string()).is_empty());
}

#[test]
fn validate_reports_errors() {
    let errors = validate_bot(&bot("main")).unwrap_err();
    assert_eq!(errors.len(), 1);
    let errors = validate_bot(&bot("other")).unwrap_err();
    assert_eq!(errors.len(), 2);
    let good = CsmlBot {
        flows: vec![CsmlFlow { name: "main".to_string(), content: "start { }".to_string() }],
        default_flow: "main".to_string(),
    };
    assert_eq!(validate_bot(&good), Ok(true));
}
