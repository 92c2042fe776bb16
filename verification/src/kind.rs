//! The closed set of error categories and their fixed texts.

use vstd::prelude::*;

verus! {

/// Closed enum of tool-error categories.
#[derive(Debug, Clone, Copy, PartialEq, Eq, Hash, Structural)]
pub enum ErrorKind {
    /// Bad args from the LLM. Surface message so it can retry.
    UserInput,
    /// Authentication or authorization failure. Stop, alert operator.
    Auth,
    /// Resource doesn't exist. Tell LLM to try a different one.
    NotFound,
    /// Throttled. Back off and retry.
    RateLimited,
    /// Request timed out. Retry with smaller scope or wait.
    Timeout,
    /// Transient error. Retry with backoff.
    Retryable,
    /// External system permanently rejects this request. Stop.
    ExternalPermanent,
    /// Our own bug. Bubble up; retrying won't help.
    Internal,
    /// Couldn't classify. Try once more then give up.
    Unknown,
}

/// The stable snake_case name of a kind.
pub open spec fn kind_name(k: ErrorKind) -> Seq<char> {
    match k {
        ErrorKind::UserInput => "user_input"@,
        ErrorKind::Auth => "auth"@,
        ErrorKind::NotFound => "not_found"@,
        ErrorKind::RateLimited => "rate_limited"@,
        ErrorKind::Timeout => "timeout"@,
        ErrorKind::Retryable => "retryable"@,
        ErrorKind::ExternalPermanent => "external_permanent"@,
        ErrorKind::Internal => "internal"@,
        ErrorKind::Unknown => "unknown"@,
    }
}

/// The one-line hint that goes with a kind.
pub open spec fn kind_hint(k: ErrorKind) -> Seq<char> {
    match k {
        ErrorKind::UserInput => "Your tool arguments are invalid. Check the schema and try again."@,
        ErrorKind::Auth => "Authentication failed. Stop retrying and ask for credentials."@,
        ErrorKind::NotFound => "The resource you asked for does not exist. Try a different one."@,
        ErrorKind::RateLimited => "You are being throttled. Wait before retrying."@,
        ErrorKind::Timeout => "The request timed out. Try a smaller scope or wait."@,
        ErrorKind::Retryable => "Transient error. Retry with backoff."@,
        ErrorKind::ExternalPermanent => "The external system rejected this request and will keep rejecting it."@,
        ErrorKind::Internal => "An internal error occurred. This is unlikely to be fixed by retrying."@,
        ErrorKind::Unknown => "An unclassified error occurred. Try once more, then give up."@,
    }
}

/// Whether retrying an error of this kind has any chance of succeeding.
pub open spec fn kind_is_retryable(k: ErrorKind) -> bool {
    k == ErrorKind::RateLimited || k == ErrorKind::Timeout || k == ErrorKind::Retryable
}

/// Every kind has a non-empty name and a non-empty hint.
pub proof fn lemma_texts_nonempty(k: ErrorKind)
    ensures
        kind_name(k).len() > 0,
        kind_hint(k).len() > 0,
{
    match k {
        ErrorKind::UserInput => {
            reveal_strlit("user_input");
            reveal_strlit("Your tool arguments are invalid. Check the schema and try again.");
        },
        ErrorKind::Auth => {
            reveal_strlit("auth");
            reveal_strlit("Authentication failed. Stop retrying and ask for credentials.");
        },
        ErrorKind::NotFound => {
            reveal_strlit("not_found");
            reveal_strlit("The resource you asked for does not exist. Try a different one.");
        },
        ErrorKind::RateLimited => {
            reveal_strlit("rate_limited");
            reveal_strlit("You are being throttled. Wait before retrying.");
        },
        ErrorKind::Timeout => {
            reveal_strlit("timeout");
            reveal_strlit("The request timed out. Try a smaller scope or wait.");
        },
        ErrorKind::Retryable => {
            reveal_strlit("retryable");
            reveal_strlit("Transient error. Retry with backoff.");
        },
        ErrorKind::ExternalPermanent => {
            reveal_strlit("external_permanent");
            reveal_strlit("The external system rejected this request and will keep rejecting it.");
        },
        ErrorKind::Internal => {
            reveal_strlit("internal");
            reveal_strlit("An internal error occurred. This is unlikely to be fixed by retrying.");
        },
        ErrorKind::Unknown => {
            reveal_strlit("unknown");
            reveal_strlit("An unclassified error occurred. Try once more, then give up.");
        },
    }
}

/// Names are stable identifiers: two kinds with the same name are the same kind.
pub proof fn lemma_names_distinct(a: ErrorKind, b: ErrorKind)
    ensures
        kind_name(a) == kind_name(b) ==> a == b,
{
    reveal_strlit("user_input");
    reveal_strlit("auth");
    reveal_strlit("not_found");
    reveal_strlit("rate_limited");
    reveal_strlit("timeout");
    reveal_strlit("retryable");
    reveal_strlit("external_permanent");
    reveal_strlit("internal");
    reveal_strlit("unknown");
    if kind_name(a) == kind_name(b) {
        assert(kind_name(a).len() == kind_name(b).len());
        assert(kind_name(a)[0] == kind_name(b)[0]);
        assert(kind_name(a)[1] == kind_name(b)[1]);
    }
}

impl ErrorKind {
    /// The stable snake_case name of this kind.
    pub fn as_str(self) -> (s: &'static str)
        ensures
            s@ == kind_name(self),
    {
        match self {
            ErrorKind::UserInput => "user_input",
            ErrorKind::Auth => "auth",
            ErrorKind::NotFound => "not_found",
            ErrorKind::RateLimited => "rate_limited",
            ErrorKind::Timeout => "timeout",
            ErrorKind::Retryable => "retryable",
            ErrorKind::ExternalPermanent => "external_permanent",
            ErrorKind::Internal => "internal",
            ErrorKind::Unknown => "unknown",
        }
    }

    /// Whether retrying an error of this kind has any chance of succeeding:
    /// `true` for `RateLimited`, `Timeout` and `Retryable`, `false` for
    /// everything else.
    pub fn is_retryable(self) -> (b: bool)
        ensures
            b == kind_is_retryable(self),
    {
        match self {
            ErrorKind::RateLimited | ErrorKind::Timeout | ErrorKind::Retryable => true,
            _ => false,
        }
    }

    /// The one-line hint for this kind.
    pub fn default_hint(self) -> (s: &'static str)
        ensures
            s@ == kind_hint(self),
    {
        match self {
            ErrorKind::UserInput => "Your tool arguments are invalid. Check the schema and try again.",
            ErrorKind::Auth => "Authentication failed. Stop retrying and ask for credentials.",
            ErrorKind::NotFound => "The resource you asked for does not exist. Try a different one.",
            ErrorKind::RateLimited => "You are being throttled. Wait before retrying.",
            ErrorKind::Timeout => "The request timed out. Try a smaller scope or wait.",
            ErrorKind::Retryable => "Transient error. Retry with backoff.",
            ErrorKind::ExternalPermanent => "The external system rejected this request and will keep rejecting it.",
            ErrorKind::Internal => "An internal error occurred. This is unlikely to be fixed by retrying.",
            ErrorKind::Unknown => "An unclassified error occurred. Try once more, then give up.",
        }
    }

    /// The display text of this kind: its name, as an owned string.
    pub fn to_string(&self) -> (s: String)
        ensures
            s@ == kind_name(*self),
    {
        self.as_str().to_owned()
    }
}

} // verus!
