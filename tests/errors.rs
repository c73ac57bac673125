use receiver::{AppError, ErrorKind, MiddlewareError, ReceiverArgs, DEFAULT_PORT};

#[test]
fn each_kind_has_one_status() {
    assert_eq!(ErrorKind::Unauthorized.status(), 401);
    assert_eq!(ErrorKind::Configuration.status(), 500);
    assert_eq!(ErrorKind::InvalidRequest.status(), 400);
    assert_eq!(ErrorKind::FileOperation.status(), 500);
}

#[test]
fn messages_name_the_failure() {
    assert_eq!(
        AppError::FileOperation("disk full".to_string()).message(),
        "File operation failed: disk full"
    );
    assert_eq!(AppError::InvalidRequest("bad".to_string()).message(), "Invalid request: bad");
    assert_eq!(
        AppError::Middleware(MiddlewareError::Unauthorized).message(),
        "Middleware error: Missing or invalid Authorization header"
    );
    assert_eq!(
        MiddlewareError::Configuration("x".to_string()).message(),
        "Server configuration error: x"
    );
}

#[test]
fn responses_follow_the_taxonomy() {
    let r = AppError::FileOperation("/srv/data: denied".to_string()).to_response();
    assert_eq!((r.status, r.body.as_str()), (500, "Internal server error"));
    let r = AppError::InvalidRequest("Missing Path header".to_string()).to_response();
    assert_eq!((r.status, r.body.as_str()), (400, "Missing Path header"));
    let r = AppError::Middleware(MiddlewareError::Unauthorized).to_response();
    assert_eq!((r.status, r.body.as_str()), (401, "Missing or invalid Authorization header"));
    let r = AppError::Middleware(MiddlewareError::Configuration("Passkey not configured".to_string()))
        .to_response();
    assert_eq!((r.status, r.body.as_str()), (500, "Server configuration error: Passkey not configured"));
}

#[test]
fn kinds_of_errors() {
    assert_eq!(AppError::FileOperation(String::new()).kind(), ErrorKind::FileOperation);
    assert_eq!(AppError::InvalidRequest(String::new()).kind(), ErrorKind::InvalidRequest);
    assert_eq!(AppError::Middleware(MiddlewareError::Unauthorized).kind(), ErrorKind::Unauthorized);
    assert_eq!(
        AppError::Middleware(MiddlewareError::Configuration(String::new())).kind(),
        ErrorKind::Configuration
    );
}

#[test]
fn arguments_hold_port_and_key() {
    let args = ReceiverArgs { port: DEFAULT_PORT, key: "k".to_string() };
    assert_eq!(args.port, 8080);
    assert_eq!(args.key, "k");
}
