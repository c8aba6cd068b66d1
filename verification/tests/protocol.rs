use smtp_core::error::{check_response, CustomError, LogicError, MissingCapabilities};
use smtp_core::response::Response;

fn response(code: u16, line: &str) -> Response {
    Response::new(code, vec![line.to_owned()])
}

#[test]
fn erroneous_codes_fail_with_code() {
    for code in [400u16, 421, 450, 500, 550, 554, 599] {
        let resp = response(code, "nope");
        let expected = resp.clone();
        match check_response(resp) {
            Err(LogicError::Code(inner)) => assert_eq!(inner, expected),
            other => panic!("code {} should fail with Code, got {:?}", code, other),
        }
    }
}

#[test]
fn non_erroneous_codes_pass_unchanged() {
    for code in [200u16, 220, 250, 300, 354, 399] {
        let resp = response(code, "fine");
        let expected = resp.clone();
        match check_response(resp) {
            Ok(returned) => assert_eq!(returned, expected),
            Err(e) => panic!("code {} should pass, got {:?}", code, e),
        }
    }
}

#[test]
fn boundary_between_intermediate_and_error() {
    assert!(check_response(response(399, "last fine code")).is_ok());
    assert!(check_response(response(400, "first error code")).is_err());
    assert!(check_response(response(599, "last error code")).is_err());
}

#[test]
fn response_accessors() {
    let resp = Response::new(250, vec!["OK".to_owned(), "SIZE 1000".to_owned()]);
    assert_eq!(resp.code(), 250);
    assert_eq!(resp.lines().len(), 2);
    assert_eq!(resp.lines()[0], "OK");
    assert!(!resp.is_erroneous());
    assert!(response(421, "closing").is_erroneous());
}

#[test]
fn logic_error_descriptions() {
    let code_err = LogicError::Code(response(550, "no"));
    assert_eq!(
        code_err.description(),
        "server responded with error response code"
    );
    assert!(code_err.cause().is_none());

    let unexpected = LogicError::UnexpectedCode(response(240, "odd"));
    assert_eq!(
        unexpected.description(),
        "server responded with unexpected non-error response code"
    );
    assert!(unexpected.cause().is_none());
    assert_eq!(unexpected.display_string(), unexpected.description());
}

#[test]
fn custom_error_forwards_description_and_cause() {
    let custom = CustomError::new(7, "command rejected".to_owned(), Some("disk full".to_owned()));
    assert_eq!(custom.kind(), 7);
    let err = LogicError::Custom(custom);
    assert_eq!(err.description(), "command rejected");
    assert_eq!(err.cause(), Some(&"disk full".to_owned()));
    assert_eq!(err.display_string(), "command rejected");

    let bare = LogicError::Custom(CustomError::new(3, "oops".to_owned(), None));
    assert!(bare.cause().is_none());
}

#[test]
fn missing_capabilities_round_trip() {
    let caps = vec![
        smtp_core::capability::Capability::new("STARTTLS".to_owned()),
        smtp_core::capability::Capability::new("AUTH".to_owned()),
        smtp_core::capability::Capability::new("PIPELINING".to_owned()),
    ];
    let copy = caps.clone();
    let missing = MissingCapabilities::new(caps);
    assert_eq!(missing.capabilities(), copy.as_slice());
    let decomposed: Vec<_> = missing.into_capabilities();
    assert_eq!(decomposed, copy);
}

#[test]
fn missing_capabilities_description() {
    let missing = MissingCapabilities::new(vec![]);
    assert_eq!(missing.description(), "missing capabilities to run command");
}

#[test]
fn missing_capabilities_display_text() {
    let missing = MissingCapabilities::new(vec![
        smtp_core::capability::Capability::new("STARTTLS".to_owned()),
        smtp_core::capability::Capability::new("AUTH".to_owned()),
    ]);
    assert_eq!(
        missing.display_string(),
        "missing capabilities: STARTTLS, AUTH"
    );
}

#[test]
fn missing_capabilities_display_text_edges() {
    let empty = MissingCapabilities::new(vec![]);
    assert_eq!(empty.display_string(), "missing capabilities:");
    let single = MissingCapabilities::new(vec![smtp_core::capability::Capability::new(
        "SMTPUTF8".to_owned(),
    )]);
    assert_eq!(single.display_string(), "missing capabilities: SMTPUTF8");
}
