//! The classification tables and the three-pass classifier.

use crate::info::{ClassifiedError, ErrorInfo};
use crate::kind::{kind_hint, ErrorKind};
use crate::text::{chars_of, contains_chars, has_substring};
use vstd::prelude::*;

verus! {

/// The number of rows in the type-name keyword table.
pub const NAME_RULE_COUNT: usize = 18;

/// The kind that an HTTP status code maps to, if the code is recognized.
pub open spec fn status_kind(code: u16) -> Option<ErrorKind> {
    if code == 400 || code == 405 || code == 413 || code == 414 || code == 422 {
        Some(ErrorKind::UserInput)
    } else if code == 401 || code == 403 {
        Some(ErrorKind::Auth)
    } else if code == 404 {
        Some(ErrorKind::NotFound)
    } else if code == 408 || code == 504 {
        Some(ErrorKind::Timeout)
    } else if code == 409 || code == 425 || code == 500 || code == 502 || code == 503 {
        Some(ErrorKind::Retryable)
    } else if code == 410 || code == 501 {
        Some(ErrorKind::ExternalPermanent)
    } else if code == 429 || code == 529 {
        Some(ErrorKind::RateLimited)
    } else {
        None
    }
}

/// Row `i` of the keyword table: a keyword and the kind it selects.
pub open spec fn name_rule(i: int) -> (Seq<char>, ErrorKind) {
    if i == 0 {
        ("RateLimit"@, ErrorKind::RateLimited)
    } else if i == 1 {
        ("ThrottlingException"@, ErrorKind::RateLimited)
    } else if i == 2 {
        ("ServiceQuotaExceeded"@, ErrorKind::RateLimited)
    } else if i == 3 {
        ("Timeout"@, ErrorKind::Timeout)
    } else if i == 4 {
        ("Unauthorized"@, ErrorKind::Auth)
    } else if i == 5 {
        ("Authentication"@, ErrorKind::Auth)
    } else if i == 6 {
        ("PermissionDenied"@, ErrorKind::Auth)
    } else if i == 7 {
        ("Forbidden"@, ErrorKind::Auth)
    } else if i == 8 {
        ("NotFound"@, ErrorKind::NotFound)
    } else if i == 9 {
        ("DoesNotExist"@, ErrorKind::NotFound)
    } else if i == 10 {
        ("Overloaded"@, ErrorKind::Retryable)
    } else if i == 11 {
        ("ServiceUnavailable"@, ErrorKind::Retryable)
    } else if i == 12 {
        ("APIConnectionError"@, ErrorKind::Retryable)
    } else if i == 13 {
        ("InternalServer"@, ErrorKind::Retryable)
    } else if i == 14 {
        ("ModelStreamErrorException"@, ErrorKind::Retryable)
    } else if i == 15 {
        ("BadRequest"@, ErrorKind::UserInput)
    } else if i == 16 {
        ("Validation"@, ErrorKind::UserInput)
    } else {
        ("InvalidArgument"@, ErrorKind::UserInput)
    }
}

/// The kind of the first row, from row `i` on, whose keyword occurs in `name`.
pub open spec fn first_name_match(name: Seq<char>, i: int) -> Option<ErrorKind>
    decreases NAME_RULE_COUNT - i,
{
    if i < 0 || i >= NAME_RULE_COUNT {
        None
    } else if has_substring(name, name_rule(i).0) {
        Some(name_rule(i).1)
    } else {
        first_name_match(name, i + 1)
    }
}

/// The kind that a type name maps to: that of the first table row whose
/// keyword occurs in the name, if any.
pub open spec fn name_kind(name: Seq<char>) -> Option<ErrorKind> {
    first_name_match(name, 0)
}

/// What the status-code pass decides for `info`, if anything.
pub open spec fn status_pass(info: ErrorInfo) -> Option<ErrorKind> {
    match info.status_code {
        Some(code) => status_kind(code),
        None => None,
    }
}

/// What the type-name pass decides for `info`, if anything.
pub open spec fn name_pass(info: ErrorInfo) -> Option<ErrorKind> {
    match info.exception_type {
        Some(name) => name_kind(name@),
        None => None,
    }
}

/// The kind that classification assigns to `info`: the status code first,
/// then the timeout flag, then the connection flag, then the type name, and
/// `Unknown` when none of them decides.
pub open spec fn classify_kind(info: ErrorInfo) -> ErrorKind {
    if status_pass(info) is Some {
        status_pass(info)->0
    } else if info.is_timeout {
        ErrorKind::Timeout
    } else if info.is_connection_error {
        ErrorKind::Retryable
    } else {
        or_unknown(name_pass(info))
    }
}

/// The kind that a pass decided, or `Unknown`.
pub open spec fn or_unknown(k: Option<ErrorKind>) -> ErrorKind {
    match k {
        Some(k) => k,
        None => ErrorKind::Unknown,
    }
}

/// Maps a recognized HTTP status code to its kind.
pub fn classify_by_status(code: u16) -> (r: Option<ErrorKind>)
    ensures
        r == status_kind(code),
{
    match code {
        400 | 405 | 413 | 414 | 422 => Some(ErrorKind::UserInput),
        401 | 403 => Some(ErrorKind::Auth),
        404 => Some(ErrorKind::NotFound),
        408 => Some(ErrorKind::Timeout),
        409 | 425 | 500 | 502 | 503 => Some(ErrorKind::Retryable),
        410 | 501 => Some(ErrorKind::ExternalPermanent),
        429 | 529 => Some(ErrorKind::RateLimited),
        504 => Some(ErrorKind::Timeout),
        _ => None,
    }
}

/// Row `i` of the keyword table.
fn name_rule_at(i: usize) -> (r: (&'static str, ErrorKind))
    requires
        i < NAME_RULE_COUNT,
    ensures
        r.0@ == name_rule(i as int).0,
        r.1 == name_rule(i as int).1,
{
    match i {
        0 => ("RateLimit", ErrorKind::RateLimited),
        1 => ("ThrottlingException", ErrorKind::RateLimited),
        2 => ("ServiceQuotaExceeded", ErrorKind::RateLimited),
        3 => ("Timeout", ErrorKind::Timeout),
        4 => ("Unauthorized", ErrorKind::Auth),
        5 => ("Authentication", ErrorKind::Auth),
        6 => ("PermissionDenied", ErrorKind::Auth),
        7 => ("Forbidden", ErrorKind::Auth),
        8 => ("NotFound", ErrorKind::NotFound),
        9 => ("DoesNotExist", ErrorKind::NotFound),
        10 => ("Overloaded", ErrorKind::Retryable),
        11 => ("ServiceUnavailable", ErrorKind::Retryable),
        12 => ("APIConnectionError", ErrorKind::Retryable),
        13 => ("InternalServer", ErrorKind::Retryable),
        14 => ("ModelStreamErrorException", ErrorKind::Retryable),
        15 => ("BadRequest", ErrorKind::UserInput),
        16 => ("Validation", ErrorKind::UserInput),
        _ => ("InvalidArgument", ErrorKind::UserInput),
    }
}

/// Maps an exception type name to the kind of the first keyword-table row
/// whose keyword occurs in it.
pub fn classify_by_name(name: &str) -> (r: Option<ErrorKind>)
    ensures
        r == name_kind(name@),
{
    let hay = chars_of(name);
    let mut i: usize = 0;
    while i < NAME_RULE_COUNT
        invariant
            i <= NAME_RULE_COUNT,
            hay@ == name@,
            name_kind(name@) == first_name_match(name@, i as int),
        decreases NAME_RULE_COUNT - i,
    {
        let (keyword, kind) = name_rule_at(i);
        let needle = chars_of(keyword);
        if contains_chars(&hay, &needle) {
            return Some(kind);
        }
        i += 1;
    }
    None
}

/// The kind of `info`, pass by pass.
fn classify_inner(info: &ErrorInfo) -> (k: ErrorKind)
    ensures
        k == classify_kind(*info),
{
    if let Some(code) = info.status_code {
        if let Some(k) = classify_by_status(code) {
            return k;
        }
    }
    if info.is_timeout {
        return ErrorKind::Timeout;
    }
    if info.is_connection_error {
        return ErrorKind::Retryable;
    }
    if let Some(name) = &info.exception_type {
        if let Some(k) = classify_by_name(name.as_str()) {
            return k;
        }
    }
    ErrorKind::Unknown
}

/// Classifies an error into a kind and a one-line hint.
///
/// Classification order:
/// 1. HTTP status code (if set and recognized)
/// 2. Network error flags (`is_timeout`, then `is_connection_error`)
/// 3. Type-name keyword matching
pub fn classify(info: &ErrorInfo) -> (r: ClassifiedError)
    ensures
        r.kind == classify_kind(*info),
        r.hint@ == kind_hint(r.kind),
        r.status_code == info.status_code,
        r.retry_after_s == info.retry_after_s,
        // A recognized status code decides, whatever the flags and the name.
        info.status_code matches Some(c) && (c == 400 || c == 405 || c == 413 || c == 414 || c
            == 422) ==> r.kind == ErrorKind::UserInput,
        info.status_code matches Some(c) && (c == 401 || c == 403) ==> r.kind == ErrorKind::Auth,
        info.status_code matches Some(c) && c == 404 ==> r.kind == ErrorKind::NotFound,
        info.status_code matches Some(c) && (c == 408 || c == 504) ==> r.kind == ErrorKind::Timeout,
        info.status_code matches Some(c) && (c == 409 || c == 425 || c == 500 || c == 502 || c
            == 503) ==> r.kind == ErrorKind::Retryable,
        info.status_code matches Some(c) && (c == 410 || c == 501) ==> r.kind
            == ErrorKind::ExternalPermanent,
        info.status_code matches Some(c) && (c == 429 || c == 529) ==> r.kind
            == ErrorKind::RateLimited,
        // Without a recognized status code, the timeout flag, then the
        // connection flag, then the type name decide.
        (match info.status_code {
            Some(c) => !(c == 400 || c == 405 || c == 413 || c == 414 || c == 422 || c == 401 || c
                == 403 || c == 404 || c == 408 || c == 504 || c == 409 || c == 425 || c == 500 || c
                == 502 || c == 503 || c == 410 || c == 501 || c == 429 || c == 529),
            None => true,
        }) ==> r.kind == (if info.is_timeout {
            ErrorKind::Timeout
        } else if info.is_connection_error {
            ErrorKind::Retryable
        } else {
            match info.exception_type {
                Some(name) => or_unknown(name_kind(name@)),
                None => ErrorKind::Unknown,
            }
        }),
{
    let kind = classify_inner(info);
    ClassifiedError {
        kind,
        hint: kind.default_hint().to_owned(),
        status_code: info.status_code,
        retry_after_s: info.retry_after_s,
    }
}

/// Classifies a bare HTTP status code.
pub fn classify_status(code: u16) -> (r: ClassifiedError)
    ensures
        r.kind == or_unknown(status_kind(code)),
        r.hint@ == kind_hint(r.kind),
        r.status_code == Some(code),
        r.retry_after_s is None,
{
    classify(&ErrorInfo::from_status(code))
}

/// Classifies a bare exception type name.
pub fn classify_name(name: &str) -> (r: ClassifiedError)
    ensures
        r.kind == or_unknown(name_kind(name@)),
        r.hint@ == kind_hint(r.kind),
        r.status_code is None,
        r.retry_after_s is None,
{
    classify(&ErrorInfo::from_type_name(name))
}

} // verus!
