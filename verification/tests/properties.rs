//! Concrete checks of the library's laws and edge cases.

use tool_error_classify::{
    classify, classify_by_name, classify_by_status, classify_name, classify_status, ErrorInfo,
    ErrorKind,
};

const ALL_KINDS: [ErrorKind; 9] = [
    ErrorKind::UserInput,
    ErrorKind::Auth,
    ErrorKind::NotFound,
    ErrorKind::RateLimited,
    ErrorKind::Timeout,
    ErrorKind::Retryable,
    ErrorKind::ExternalPermanent,
    ErrorKind::Internal,
    ErrorKind::Unknown,
];

#[test]
fn status_table_is_exact() {
    let table: [(u16, ErrorKind); 19] = [
        (400, ErrorKind::UserInput),
        (405, ErrorKind::UserInput),
        (413, ErrorKind::UserInput),
        (414, ErrorKind::UserInput),
        (422, ErrorKind::UserInput),
        (401, ErrorKind::Auth),
        (403, ErrorKind::Auth),
        (404, ErrorKind::NotFound),
        (408, ErrorKind::Timeout),
        (504, ErrorKind::Timeout),
        (409, ErrorKind::Retryable),
        (425, ErrorKind::Retryable),
        (500, ErrorKind::Retryable),
        (502, ErrorKind::Retryable),
        (503, ErrorKind::Retryable),
        (410, ErrorKind::ExternalPermanent),
        (501, ErrorKind::ExternalPermanent),
        (429, ErrorKind::RateLimited),
        (529, ErrorKind::RateLimited),
    ];
    for (code, kind) in table {
        assert_eq!(classify_by_status(code), Some(kind), "status {code}");
    }
    for code in 0..=u16::MAX {
        if !table.iter().any(|(c, _)| *c == code) {
            assert_eq!(classify_by_status(code), None, "status {code}");
        }
    }
}

#[test]
fn every_keyword_row_selects_its_kind() {
    let rows: [(&str, ErrorKind); 18] = [
        ("RateLimit", ErrorKind::RateLimited),
        ("ThrottlingException", ErrorKind::RateLimited),
        ("ServiceQuotaExceeded", ErrorKind::RateLimited),
        ("Timeout", ErrorKind::Timeout),
        ("Unauthorized", ErrorKind::Auth),
        ("Authentication", ErrorKind::Auth),
        ("PermissionDenied", ErrorKind::Auth),
        ("Forbidden", ErrorKind::Auth),
        ("NotFound", ErrorKind::NotFound),
        ("DoesNotExist", ErrorKind::NotFound),
        ("Overloaded", ErrorKind::Retryable),
        ("ServiceUnavailable", ErrorKind::Retryable),
        ("APIConnectionError", ErrorKind::Retryable),
        ("InternalServer", ErrorKind::Retryable),
        ("ModelStreamErrorException", ErrorKind::Retryable),
        ("BadRequest", ErrorKind::UserInput),
        ("Validation", ErrorKind::UserInput),
        ("InvalidArgument", ErrorKind::UserInput),
    ];
    for (keyword, kind) in rows {
        assert_eq!(classify_by_name(keyword), Some(kind), "{keyword}");
        let wrapped = format!("my.pkg.{keyword}Thing");
        assert_eq!(classify_by_name(&wrapped), Some(kind), "{wrapped}");
    }
}

#[test]
fn first_row_wins_not_first_position() {
    // "Timeout" is row 3, "Validation" row 16: the table order decides.
    assert_eq!(classify_by_name("ValidationTimeout"), Some(ErrorKind::Timeout));
    assert_eq!(classify_by_name("TimeoutValidation"), Some(ErrorKind::Timeout));
    // "RateLimit" (row 0) beats "InternalServer" (row 13).
    assert_eq!(
        classify_by_name("InternalServerRateLimit"),
        Some(ErrorKind::RateLimited)
    );
}

#[test]
fn name_matching_edges() {
    assert_eq!(classify_by_name(""), None);
    assert_eq!(classify_by_name("ratelimit"), None);
    assert_eq!(classify_by_name("RateLimi"), None);
    assert_eq!(classify_by_name("Rate Limit"), None);
    assert_eq!(classify_by_name("é✓NotFound✓é"), Some(ErrorKind::NotFound));
    assert_eq!(classify_by_name("XXNotFoun"), None);
}

#[test]
fn order_with_unrecognized_status() {
    // An unrecognized status decides nothing: the later passes run.
    assert_eq!(
        classify(&ErrorInfo::from_status(418).as_timeout()).kind,
        ErrorKind::Timeout
    );
    assert_eq!(
        classify(&ErrorInfo::from_status(418).with_type_name("RateLimitError")).kind,
        ErrorKind::RateLimited
    );
    // Timeout beats the connection flag.
    assert_eq!(
        classify(&ErrorInfo::new().as_connection_error().as_timeout()).kind,
        ErrorKind::Timeout
    );
    // The connection flag beats the type name.
    assert_eq!(
        classify(&ErrorInfo::new().as_connection_error().with_type_name("NotFound")).kind,
        ErrorKind::Retryable
    );
}

#[test]
fn shorthands_agree_with_classify() {
    for code in 0..=u16::MAX {
        assert_eq!(classify_status(code), classify(&ErrorInfo::from_status(code)));
    }
    for name in ["", "RateLimitError", "Whatever", "BadRequestException"] {
        assert_eq!(classify_name(name), classify(&ErrorInfo::from_type_name(name)));
    }
}

#[test]
fn never_internal_and_permanent_only_from_status() {
    for code in 0..=u16::MAX {
        let k = classify_status(code).kind;
        assert_ne!(k, ErrorKind::Internal);
        if k == ErrorKind::ExternalPermanent {
            assert!(code == 410 || code == 501);
        }
    }
    for name in ["InternalError", "Internal", "PermanentFailure", "InternalServerError"] {
        let k = classify_name(name).kind;
        assert_ne!(k, ErrorKind::Internal);
        assert_ne!(k, ErrorKind::ExternalPermanent);
    }
    assert_eq!(classify_name("InternalServerError").kind, ErrorKind::Retryable);
}

#[test]
fn kind_texts() {
    let names = [
        "user_input",
        "auth",
        "not_found",
        "rate_limited",
        "timeout",
        "retryable",
        "external_permanent",
        "internal",
        "unknown",
    ];
    for (k, name) in ALL_KINDS.iter().zip(names) {
        assert_eq!(k.as_str(), name);
        assert_eq!(k.to_string(), name);
        assert!(!k.default_hint().is_empty());
    }
    for a in ALL_KINDS {
        for b in ALL_KINDS {
            assert_eq!(a.as_str() == b.as_str(), a == b);
        }
    }
    assert_eq!(
        ErrorKind::Retryable.default_hint(),
        "Transient error. Retry with backoff."
    );
}

#[test]
fn retryable_kinds() {
    for k in ALL_KINDS {
        let expected = matches!(
            k,
            ErrorKind::RateLimited | ErrorKind::Timeout | ErrorKind::Retryable
        );
        assert_eq!(k.is_retryable(), expected);
    }
    for code in [400u16, 408, 429, 501, 503, 418] {
        let r = classify_status(code);
        assert_eq!(r.is_retryable(), r.kind.is_retryable());
    }
}

#[test]
fn result_carries_hint_status_and_delay() {
    let nan_bits = f64::NAN.to_bits() | 1;
    let info = ErrorInfo::from_type_name("Overloaded")
        .with_status(599)
        .with_retry_after(nan_bits);
    let r = classify(&info);
    assert_eq!(r.kind, ErrorKind::Retryable);
    assert_eq!(r.hint, ErrorKind::Retryable.default_hint());
    assert_eq!(r.status_code, Some(599));
    assert_eq!(r.retry_after_s, Some(nan_bits));
}

#[test]
fn builders_keep_other_fields() {
    let blank = ErrorInfo::new();
    assert_eq!(blank.status_code, None);
    assert!(blank.exception_type.is_none());
    assert!(!blank.is_timeout && !blank.is_connection_error);
    assert_eq!(blank.retry_after_s, None);
    let d = ErrorInfo::default();
    assert_eq!(d.status_code, None);
    assert!(d.exception_type.is_none());
    assert!(!d.is_timeout && !d.is_connection_error);
    assert_eq!(d.retry_after_s, None);

    let info = ErrorInfo::new()
        .with_retry_after(2.0f64.to_bits())
        .as_timeout()
        .with_status(500)
        .with_type_name("Foo")
        .as_connection_error()
        .with_status(404);
    assert_eq!(info.status_code, Some(404));
    assert_eq!(info.exception_type.as_deref(), Some("Foo"));
    assert!(info.is_timeout && info.is_connection_error);
    assert_eq!(info.retry_after_s.map(f64::from_bits), Some(2.0));
}

#[test]
fn results_compare_delays_as_floats() {
    let with_delay = |secs: f64| {
        classify(&ErrorInfo::from_status(503).with_retry_after(secs.to_bits()))
    };
    assert_eq!(with_delay(1.5), with_delay(1.5));
    assert_ne!(with_delay(1.5), with_delay(2.5));
    assert_eq!(with_delay(0.0), with_delay(-0.0));
    assert_ne!(with_delay(f64::NAN), with_delay(f64::NAN));
    assert_ne!(with_delay(1.5), classify_status(503));
    assert_eq!(classify_status(503), classify_status(503));
    assert_ne!(classify_status(503), classify_status(502));
}
