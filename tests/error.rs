use twirp_bind::error::{internal, ErrorCode, ServerError};

#[test]
fn status_of_each_code() {
    let cases = [
        (ErrorCode::Canceled, 408, "canceled"),
        (ErrorCode::Unknown, 500, "unknown"),
        (ErrorCode::InvalidArgument, 400, "invalid_argument"),
        (ErrorCode::Malformed, 400, "malformed"),
        (ErrorCode::DeadlineExceeded, 408, "deadline_exceeded"),
        (ErrorCode::NotFound, 404, "not_found"),
        (ErrorCode::BadRoute, 404, "bad_route"),
        (ErrorCode::AlreadyExists, 409, "already_exists"),
        (ErrorCode::PermissionDenied, 403, "permission_denied"),
        (ErrorCode::Unauthenticated, 401, "unauthenticated"),
        (ErrorCode::ResourceExhausted, 429, "resource_exhausted"),
        (ErrorCode::FailedPrecondition, 412, "failed_precondition"),
        (ErrorCode::Aborted, 409, "aborted"),
        (ErrorCode::OutOfRange, 400, "out_of_range"),
        (ErrorCode::Unimplemented, 501, "unimplemented"),
        (ErrorCode::Internal, 500, "internal"),
        (ErrorCode::Unavailable, 503, "unavailable"),
        (ErrorCode::DataLoss, 500, "dataloss"),
    ];
    for (code, status, text) in cases {
        assert_eq!(code.http_status(), status);
        assert_eq!(code.as_str(), text);
        assert!(!(200..300).contains(&status));
        assert_eq!(ErrorCode::from_text(&text.to_string()), Some(code));
    }
}

#[test]
fn internal_constructor() {
    let e = internal("oops");
    assert_eq!(e.code, ErrorCode::Internal);
    assert_eq!(e.msg, "oops");
    assert!(e.meta.is_empty());
    assert_eq!(e.http_status(), 500);
}

#[test]
fn meta_is_set_and_replaced() {
    let e = ServerError::new(ErrorCode::InvalidArgument, "bad".to_string())
        .with_meta("field".to_string(), "name".to_string())
        .with_meta("retry".to_string(), "no".to_string())
        .with_meta("field".to_string(), "age".to_string());
    assert_eq!(e.code, ErrorCode::InvalidArgument);
    assert_eq!(e.msg, "bad");
    assert_eq!(
        e.meta,
        vec![("field".to_string(), "age".to_string()), ("retry".to_string(), "no".to_string())]
    );
    assert_eq!(e.http_status(), 400);
}

#[test]
fn unknown_code_text() {
    assert_eq!(ErrorCode::from_text(&"nope".to_string()), None);
    assert_eq!(ErrorCode::from_text(&"Internal".to_string()), None);
    assert_eq!(ErrorCode::from_text(&"".to_string()), None);
}
