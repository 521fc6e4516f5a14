use command_gateway::error::ServiceError;

#[test]
fn bad_request_is_reported_with_its_detail() {
    let err = ServiceError::BadRequest("bad item object".to_string());
    assert_eq!(err.to_string(), "Bad request: bad item object");
}

#[test]
fn store_failure_is_reported_with_its_detail() {
    let err = ServiceError::Rpel("connection refused".to_string());
    assert_eq!(err.to_string(), "Rpel: connection refused");
}

#[test]
fn refusals_are_reported_with_fixed_phrases() {
    assert_eq!(ServiceError::NotAuth.to_string(), "Not auth");
    assert_eq!(ServiceError::NotPermission.to_string(), "Not permission");
    assert_eq!(ServiceError::NoState.to_string(), "Request not contain state");
    assert_eq!(ServiceError::Router.to_string(), "No build router");
}

#[test]
fn collaborator_failures_are_reported_with_their_message() {
    assert_eq!(
        ServiceError::AddrParse("invalid socket address syntax".to_string()).to_string(),
        "Socket address parse: invalid socket address syntax"
    );
    assert_eq!(ServiceError::IOError("broken pipe".to_string()).to_string(), "IO: broken pipe");
    assert_eq!(
        ServiceError::SJError("expected value at line 1 column 1".to_string()).to_string(),
        "Serde JSON: expected value at line 1 column 1"
    );
    assert_eq!(ServiceError::Hyper("closed".to_string()).to_string(), "Hyper: closed");
    assert_eq!(
        ServiceError::HyperHttp("invalid header".to_string()).to_string(),
        "Hyper http: invalid header"
    );
    assert_eq!(ServiceError::Std("boom".to_string()).to_string(), "std boom");
}

#[test]
fn an_empty_detail_leaves_the_phrase() {
    assert_eq!(ServiceError::BadRequest(String::new()).to_string(), "Bad request: ");
    assert_eq!(ServiceError::Rpel(String::new()).to_string(), "Rpel: ");
}
