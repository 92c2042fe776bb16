//! Properties of classification as a whole.

use crate::classify::{
    classify_kind, first_name_match, name_kind, name_pass, name_rule, or_unknown, status_kind,
    status_pass,
    NAME_RULE_COUNT,
};
use crate::info::{has_exception_type, ErrorInfo};

use crate::equality::{is_nan_bits, results_eq};
use crate::info::ClassifiedError;
use crate::kind::{kind_hint, kind_is_retryable, kind_name, ErrorKind};
use crate::text::has_substring;
use vstd::prelude::*;

verus! {

/// Classification order: a recognized status code wins over everything;
/// without one, the timeout flag wins over the connection flag and the type
/// name; then the connection flag wins over the type name; then a matching
/// type name decides; anything that matches no rule is `Unknown`.
pub proof fn lemma_classification_order(info: ErrorInfo)
    ensures
        status_pass(info) matches Some(k) ==> classify_kind(info) == k,
        status_pass(info) is None && info.is_timeout ==> classify_kind(info) == ErrorKind::Timeout,
        status_pass(info) is None && !info.is_timeout && info.is_connection_error ==> classify_kind(
            info,
        ) == ErrorKind::Retryable,
        status_pass(info) is None && !info.is_timeout && !info.is_connection_error ==> (name_pass(
            info,
        ) matches Some(k) ==> classify_kind(info) == k),
        status_pass(info) is None && !info.is_timeout && !info.is_connection_error && name_pass(
            info,
        ) is None ==> classify_kind(info) == ErrorKind::Unknown,
{
}

/// The shorthand for a bare status code agrees with classifying a
/// descriptor that holds only that code.
pub proof fn lemma_status_shorthand(info: ErrorInfo, code: u16)
    requires
        info.status_code == Some(code),
        info.exception_type is None,
        !info.is_timeout,
        !info.is_connection_error,
    ensures
        classify_kind(info) == or_unknown(status_kind(code)),
{
}

/// The shorthand for a bare type name agrees with classifying a
/// descriptor that holds only that name.
pub proof fn lemma_name_shorthand(info: ErrorInfo, name: Seq<char>)
    requires
        info.status_code is None,
        has_exception_type(info, name),
        !info.is_timeout,
        !info.is_connection_error,
    ensures
        classify_kind(info) == or_unknown(name_kind(name)),
{
}

/// `a` and `b` hold the same type name (both none, or the same characters).
pub open spec fn same_exception_type(a: ErrorInfo, b: ErrorInfo) -> bool {
    match (a.exception_type, b.exception_type) {
        (None, None) => true,
        (Some(x), Some(y)) => x@ == y@,
        _ => false,
    }
}

/// The retry-after delay never affects the kind: two descriptors that differ
/// at most in their delays are classified alike.
pub proof fn lemma_delay_never_decides(a: ErrorInfo, b: ErrorInfo)
    requires
        a.status_code == b.status_code,
        same_exception_type(a, b),
        a.is_timeout == b.is_timeout,
        a.is_connection_error == b.is_connection_error,
    ensures
        classify_kind(a) == classify_kind(b),
{
}

/// An unrecognized status code is ignored: classification then falls
/// through to the flags and the type name, exactly as with no status code.
pub proof fn lemma_unrecognized_status_ignored(info: ErrorInfo, info2: ErrorInfo, code: u16)
    requires
        info.status_code == Some(code),
        status_kind(code) is None,
        info2.status_code is None,
        same_exception_type(info, info2),
        info.is_timeout == info2.is_timeout,
        info.is_connection_error == info2.is_connection_error,
    ensures
        classify_kind(info) == classify_kind(info2),
{
}

proof fn lemma_first_match_from(name: Seq<char>, i: int)
    requires
        0 <= i <= NAME_RULE_COUNT,
    ensures
        first_name_match(name, i) is None <==> forall|j: int|
            i <= j < NAME_RULE_COUNT ==> !has_substring(name, #[trigger] name_rule(j).0),
        forall|j: int|
            i <= j < NAME_RULE_COUNT && has_substring(name, #[trigger] name_rule(j).0) && (forall|m: int|
                i <= m < j ==> !has_substring(name, #[trigger] name_rule(m).0)) ==> first_name_match(
                name,
                i,
            ) == Some(name_rule(j).1),
        first_name_match(name, i) != Some(ErrorKind::Internal),
    decreases NAME_RULE_COUNT - i,
{
    if i < NAME_RULE_COUNT {
        lemma_first_match_from(name, i + 1);
        if !has_substring(name, name_rule(i).0) {
            assert forall|j: int|
                i <= j < NAME_RULE_COUNT && has_substring(name, #[trigger] name_rule(j).0)
                    && (forall|m: int| i <= m < j ==> !has_substring(name, #[trigger] name_rule(m).0))
                implies first_name_match(name, i) == Some(name_rule(j).1) by {
                assert(j != i);
                assert forall|m: int| i + 1 <= m < j implies !has_substring(
                    name,
                    #[trigger] name_rule(m).0,
                ) by {}
            }
        }
    }
}

/// The type-name pass is a first-match table: a name selects no kind exactly
/// when no keyword of the table occurs in it, and otherwise the kind of the
/// first row whose keyword occurs in it.
pub proof fn lemma_name_kind_first_row(name: Seq<char>)
    ensures
        name_kind(name) is None <==> forall|j: int|
            0 <= j < NAME_RULE_COUNT ==> !has_substring(name, #[trigger] name_rule(j).0),
        forall|j: int|
            0 <= j < NAME_RULE_COUNT && has_substring(name, #[trigger] name_rule(j).0) && (forall|m: int|
                0 <= m < j ==> !has_substring(name, #[trigger] name_rule(m).0)) ==> name_kind(name)
                == Some(name_rule(j).1),
{
    lemma_first_match_from(name, 0);
}

/// Classification never reports `Internal`: no status code, flag or keyword
/// leads to it.
pub proof fn lemma_never_internal(info: ErrorInfo)
    ensures
        classify_kind(info) != ErrorKind::Internal,
{
    if let Some(s) = info.exception_type {
        lemma_first_match_from(s@, 0);
    }
}

/// `ExternalPermanent` only comes from the status codes 410 and 501.
pub proof fn lemma_external_permanent_only_from_status(info: ErrorInfo)
    ensures
        classify_kind(info) == ErrorKind::ExternalPermanent ==> (info.status_code matches Some(c) && (
        c == 410 || c == 501)),
{
    if let Some(s) = info.exception_type {
        lemma_first_match_from(s@, 0);
        assert forall|j: int| 0 <= j < NAME_RULE_COUNT implies name_rule(j).1
            != ErrorKind::ExternalPermanent by {}
    }
}

/// The keyword table, row by row, in order: each row's keyword and the kind
/// it selects.
pub proof fn lemma_keyword_table()
    ensures
        NAME_RULE_COUNT == 18,
        name_rule(0) == ("RateLimit"@, ErrorKind::RateLimited),
        name_rule(1) == ("ThrottlingException"@, ErrorKind::RateLimited),
        name_rule(2) == ("ServiceQuotaExceeded"@, ErrorKind::RateLimited),
        name_rule(3) == ("Timeout"@, ErrorKind::Timeout),
        name_rule(4) == ("Unauthorized"@, ErrorKind::Auth),
        name_rule(5) == ("Authentication"@, ErrorKind::Auth),
        name_rule(6) == ("PermissionDenied"@, ErrorKind::Auth),
        name_rule(7) == ("Forbidden"@, ErrorKind::Auth),
        name_rule(8) == ("NotFound"@, ErrorKind::NotFound),
        name_rule(9) == ("DoesNotExist"@, ErrorKind::NotFound),
        name_rule(10) == ("Overloaded"@, ErrorKind::Retryable),
        name_rule(11) == ("ServiceUnavailable"@, ErrorKind::Retryable),
        name_rule(12) == ("APIConnectionError"@, ErrorKind::Retryable),
        name_rule(13) == ("InternalServer"@, ErrorKind::Retryable),
        name_rule(14) == ("ModelStreamErrorException"@, ErrorKind::Retryable),
        name_rule(15) == ("BadRequest"@, ErrorKind::UserInput),
        name_rule(16) == ("Validation"@, ErrorKind::UserInput),
        name_rule(17) == ("InvalidArgument"@, ErrorKind::UserInput),
{
}

/// A type name in which none of the table's keywords occurs selects no kind.
pub proof fn lemma_no_keyword_no_kind(name: Seq<char>)
    requires
        !has_substring(name, "RateLimit"@),
        !has_substring(name, "ThrottlingException"@),
        !has_substring(name, "ServiceQuotaExceeded"@),
        !has_substring(name, "Timeout"@),
        !has_substring(name, "Unauthorized"@),
        !has_substring(name, "Authentication"@),
        !has_substring(name, "PermissionDenied"@),
        !has_substring(name, "Forbidden"@),
        !has_substring(name, "NotFound"@),
        !has_substring(name, "DoesNotExist"@),
        !has_substring(name, "Overloaded"@),
        !has_substring(name, "ServiceUnavailable"@),
        !has_substring(name, "APIConnectionError"@),
        !has_substring(name, "InternalServer"@),
        !has_substring(name, "ModelStreamErrorException"@),
        !has_substring(name, "BadRequest"@),
        !has_substring(name, "Validation"@),
        !has_substring(name, "InvalidArgument"@),
    ensures
        name_kind(name) is None,
{
    lemma_name_kind_first_row(name);
}

/// A type name in which "Timeout" occurs, and none of the three
/// rate-limit keywords that precede it in the table, selects `Timeout`.
pub proof fn lemma_timeout_keyword(name: Seq<char>)
    requires
        has_substring(name, "Timeout"@),
        !has_substring(name, "RateLimit"@),
        !has_substring(name, "ThrottlingException"@),
        !has_substring(name, "ServiceQuotaExceeded"@),
    ensures
        name_kind(name) == Some(ErrorKind::Timeout),
{
    lemma_name_kind_first_row(name);
    assert(has_substring(name, name_rule(3).0));
    assert forall|m: int| 0 <= m < 3 implies !has_substring(name, #[trigger] name_rule(m).0) by {}
}

/// The status table: exactly which codes are recognized, and what each
/// one selects.
pub proof fn lemma_status_table(code: u16)
    ensures
        (status_kind(code) == Some(ErrorKind::UserInput)) == (code == 400 || code == 405 || code
            == 413 || code == 414 || code == 422),
        (status_kind(code) == Some(ErrorKind::Auth)) == (code == 401 || code == 403),
        (status_kind(code) == Some(ErrorKind::NotFound)) == (code == 404),
        (status_kind(code) == Some(ErrorKind::Timeout)) == (code == 408 || code == 504),
        (status_kind(code) == Some(ErrorKind::Retryable)) == (code == 409 || code == 425 || code
            == 500 || code == 502 || code == 503),
        (status_kind(code) == Some(ErrorKind::ExternalPermanent)) == (code == 410 || code == 501),
        (status_kind(code) == Some(ErrorKind::RateLimited)) == (code == 429 || code == 529),
        status_kind(code) != Some(ErrorKind::Internal),
        status_kind(code) != Some(ErrorKind::Unknown),
{
}

/// The stable names, and which kinds are worth retrying.
pub proof fn lemma_kind_names()
    ensures
        kind_name(ErrorKind::UserInput) == "user_input"@,
        kind_name(ErrorKind::Auth) == "auth"@,
        kind_name(ErrorKind::NotFound) == "not_found"@,
        kind_name(ErrorKind::RateLimited) == "rate_limited"@,
        kind_name(ErrorKind::Timeout) == "timeout"@,
        kind_name(ErrorKind::Retryable) == "retryable"@,
        kind_name(ErrorKind::ExternalPermanent) == "external_permanent"@,
        kind_name(ErrorKind::Internal) == "internal"@,
        kind_name(ErrorKind::Unknown) == "unknown"@,
        forall|k: ErrorKind|
            kind_is_retryable(k) == (k == ErrorKind::RateLimited || k == ErrorKind::Timeout || k
                == ErrorKind::Retryable),
{
}

/// The hint of each kind.
pub proof fn lemma_kind_hints()
    ensures
        kind_hint(ErrorKind::UserInput)
            == "Your tool arguments are invalid. Check the schema and try again."@,
        kind_hint(ErrorKind::Auth)
            == "Authentication failed. Stop retrying and ask for credentials."@,
        kind_hint(ErrorKind::NotFound)
            == "The resource you asked for does not exist. Try a different one."@,
        kind_hint(ErrorKind::RateLimited) == "You are being throttled. Wait before retrying."@,
        kind_hint(ErrorKind::Timeout) == "The request timed out. Try a smaller scope or wait."@,
        kind_hint(ErrorKind::Retryable) == "Transient error. Retry with backoff."@,
        kind_hint(ErrorKind::ExternalPermanent)
            == "The external system rejected this request and will keep rejecting it."@,
        kind_hint(ErrorKind::Internal)
            == "An internal error occurred. This is unlikely to be fixed by retrying."@,
        kind_hint(ErrorKind::Unknown)
            == "An unclassified error occurred. Try once more, then give up."@,
{
}

/// Equal results have the same kind, the same hint, the same status code,
/// and either both or neither carry a delay; equality is symmetric; and a
/// result whose delay is not a NaN equals itself.
pub proof fn lemma_result_equality(a: ClassifiedError, b: ClassifiedError)
    ensures
        results_eq(a, b) ==> a.kind == b.kind && a.hint@ == b.hint@ && a.status_code
            == b.status_code && (a.retry_after_s is Some) == (b.retry_after_s is Some),
        results_eq(a, b) == results_eq(b, a),
        (a.retry_after_s matches Some(x) ==> !is_nan_bits(x)) ==> results_eq(a, a),
        a.retry_after_s matches Some(x) && is_nan_bits(x) ==> !results_eq(a, b),
{
    if let (Some(x), Some(y)) = (a.retry_after_s, b.retry_after_s) {
        assert((x | y) == (y | x)) by (bit_vector);
    }
}

/// Which bit patterns are NaNs: all exponent bits set and a non-zero
/// fraction.
pub proof fn lemma_nan_bits(x: u64)
    ensures
        is_nan_bits(x) == ((x >> 52u64) & 0x7ffu64 == 0x7ffu64 && x << 12u64 != 0),
{
    assert((x & 0x7ff0_0000_0000_0000u64 == 0x7ff0_0000_0000_0000u64 && x & 0x000f_ffff_ffff_ffffu64
        != 0) == ((x >> 52u64) & 0x7ffu64 == 0x7ffu64 && x << 12u64 != 0)) by (bit_vector);
}

} // verus!
