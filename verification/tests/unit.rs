//! Classification tables and builders, case by case.

use tool_error_classify::{classify, classify_name, classify_status, ErrorInfo, ErrorKind};

#[test]
fn status_400_user_input() {
    assert_eq!(classify_status(400).kind, ErrorKind::UserInput);
}

#[test]
fn status_401_auth() {
    assert_eq!(classify_status(401).kind, ErrorKind::Auth);
}

#[test]
fn status_403_auth() {
    assert_eq!(classify_status(403).kind, ErrorKind::Auth);
}

#[test]
fn status_404_not_found() {
    assert_eq!(classify_status(404).kind, ErrorKind::NotFound);
}

#[test]
fn status_408_timeout() {
    assert_eq!(classify_status(408).kind, ErrorKind::Timeout);
}

#[test]
fn status_429_rate_limited() {
    assert_eq!(classify_status(429).kind, ErrorKind::RateLimited);
}

#[test]
fn status_500_retryable() {
    assert_eq!(classify_status(500).kind, ErrorKind::Retryable);
}

#[test]
fn status_501_external_permanent() {
    assert_eq!(classify_status(501).kind, ErrorKind::ExternalPermanent);
}

#[test]
fn status_503_retryable() {
    assert_eq!(classify_status(503).kind, ErrorKind::Retryable);
}

#[test]
fn status_504_timeout() {
    assert_eq!(classify_status(504).kind, ErrorKind::Timeout);
}

#[test]
fn status_529_rate_limited() {
    assert_eq!(classify_status(529).kind, ErrorKind::RateLimited);
}

#[test]
fn status_422_user_input() {
    assert_eq!(classify_status(422).kind, ErrorKind::UserInput);
}

#[test]
fn name_rate_limit() {
    assert_eq!(classify_name("RateLimitError").kind, ErrorKind::RateLimited);
}

#[test]
fn name_throttling() {
    assert_eq!(
        classify_name("ThrottlingException").kind,
        ErrorKind::RateLimited
    );
}

#[test]
fn name_timeout() {
    assert_eq!(
        classify_name("RequestTimeoutError").kind,
        ErrorKind::Timeout
    );
}

#[test]
fn name_auth() {
    assert_eq!(classify_name("UnauthorizedError").kind, ErrorKind::Auth);
}

#[test]
fn name_forbidden() {
    assert_eq!(classify_name("ForbiddenException").kind, ErrorKind::Auth);
}

#[test]
fn name_not_found() {
    assert_eq!(classify_name("ResourceNotFound").kind, ErrorKind::NotFound);
}

#[test]
fn name_overloaded() {
    assert_eq!(
        classify_name("ModelOverloadedException").kind,
        ErrorKind::Retryable
    );
}

#[test]
fn name_service_unavailable() {
    assert_eq!(
        classify_name("ServiceUnavailableError").kind,
        ErrorKind::Retryable
    );
}

#[test]
fn name_validation() {
    assert_eq!(classify_name("ValidationError").kind, ErrorKind::UserInput);
}

#[test]
fn name_invalid_argument() {
    assert_eq!(
        classify_name("InvalidArgumentException").kind,
        ErrorKind::UserInput
    );
}

#[test]
fn is_timeout_flag() {
    let info = ErrorInfo::new().as_timeout();
    assert_eq!(classify(&info).kind, ErrorKind::Timeout);
}

#[test]
fn is_connection_error_flag() {
    let info = ErrorInfo::new().as_connection_error();
    assert_eq!(classify(&info).kind, ErrorKind::Retryable);
}

#[test]
fn status_beats_type_name() {
    let info = ErrorInfo::from_status(429).with_type_name("ValidationError");
    assert_eq!(classify(&info).kind, ErrorKind::RateLimited); // status wins
}

#[test]
fn retry_after_carried_through() {
    let info = ErrorInfo::from_status(429).with_retry_after(30.0f64.to_bits());
    let r = classify(&info);
    assert_eq!(r.retry_after_s.map(f64::from_bits), Some(30.0));
}

#[test]
fn unknown_status_falls_through() {
    let r = classify_status(418); // I'm a teapot
    assert_eq!(r.kind, ErrorKind::Unknown);
}

#[test]
fn unknown_name_falls_through() {
    let r = classify_name("SomeBizarreException");
    assert_eq!(r.kind, ErrorKind::Unknown);
}

#[test]
fn hint_non_empty() {
    for code in [400u16, 401, 403, 404, 408, 429, 500, 501, 503, 504] {
        let r = classify_status(code);
        assert!(!r.hint.is_empty(), "empty hint for status {code}");
    }
}

#[test]
fn is_retryable_check() {
    assert!(classify_status(429).is_retryable());
    assert!(classify_status(503).is_retryable());
    assert!(!classify_status(404).is_retryable());
    assert!(!classify_status(401).is_retryable());
}

#[test]
fn error_kind_display() {
    assert_eq!(ErrorKind::RateLimited.to_string(), "rate_limited");
    assert_eq!(ErrorKind::UserInput.to_string(), "user_input");
}

#[test]
fn builder_chain() {
    let info = ErrorInfo::new()
        .with_status(429)
        .with_type_name("RateLimitError")
        .with_retry_after(5.0f64.to_bits());
    let r = classify(&info);
    assert_eq!(r.kind, ErrorKind::RateLimited);
    assert_eq!(r.retry_after_s.map(f64::from_bits), Some(5.0));
    assert_eq!(r.status_code, Some(429));
}
