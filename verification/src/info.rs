//! The input descriptor handed to classification, and its result.
//!
//! A retry-after delay is a number of seconds that the library only carries
//! from input to output. It is held as the IEEE-754 bit pattern of the
//! `f64` seconds value (`f64::to_bits`), so that it passes through unchanged.

use crate::kind::ErrorKind;
use vstd::prelude::*;

verus! {

/// Result of classification. Two results are equal (`==`) when their kinds,
/// hints and status codes are equal and their delays are equal as `f64`
/// values (see `crate::equality`).
#[derive(Debug, Clone)]
pub struct ClassifiedError {
    pub kind: ErrorKind,
    pub hint: String,
    pub status_code: Option<u16>,
    /// Bit pattern of the retry-after delay in seconds, if any. `==` on
    /// results compares it by `f64` equality: a NaN delay equals no delay,
    /// itself included, and `0.0` equals `-0.0`.
    pub retry_after_s: Option<u64>,
}

/// Input descriptor for classification. Build it with the `from_*`
/// constructors and the `with_*` / `as_*` builders, or set fields directly.
#[derive(Debug, Clone)]
pub struct ErrorInfo {
    pub status_code: Option<u16>,
    pub exception_type: Option<String>,
    pub is_timeout: bool,
    pub is_connection_error: bool,
    /// Bit pattern of the retry-after delay in seconds, if any.
    pub retry_after_s: Option<u64>,
}

/// The descriptor that sets nothing: no status, no name, no flags, no delay.
pub open spec fn is_blank(info: ErrorInfo) -> bool {
    &&& info.status_code is None
    &&& info.exception_type is None
    &&& !info.is_timeout
    &&& !info.is_connection_error
    &&& info.retry_after_s is None
}

/// `info.exception_type` holds exactly the characters `name`.
pub open spec fn has_exception_type(info: ErrorInfo, name: Seq<char>) -> bool {
    info.exception_type matches Some(s) && s@ == name
}

impl Default for ErrorInfo {
    fn default() -> (r: Self)
        ensures
            is_blank(r),
    {
        ErrorInfo {
            status_code: None,
            exception_type: None,
            is_timeout: false,
            is_connection_error: false,
            retry_after_s: None,
        }
    }
}

impl ClassifiedError {
    /// Whether the agent loop should retry this error: exactly
    /// `self.kind.is_retryable()`.
    pub fn is_retryable(&self) -> (b: bool)
        ensures
            b == crate::kind::kind_is_retryable(self.kind),
    {
        self.kind.is_retryable()
    }
}

impl ErrorInfo {
    /// A descriptor that sets nothing.
    pub fn new() -> (r: Self)
        ensures
            is_blank(r),
    {
        ErrorInfo {
            status_code: None,
            exception_type: None,
            is_timeout: false,
            is_connection_error: false,
            retry_after_s: None,
        }
    }

    /// A descriptor with only the HTTP status code set.
    pub fn from_status(code: u16) -> (r: Self)
        ensures
            r.status_code == Some(code),
            r.exception_type is None,
            !r.is_timeout,
            !r.is_connection_error,
            r.retry_after_s is None,
    {
        ErrorInfo {
            status_code: Some(code),
            exception_type: None,
            is_timeout: false,
            is_connection_error: false,
            retry_after_s: None,
        }
    }

    /// A descriptor with only the exception type name set.
    pub fn from_type_name(name: &str) -> (r: Self)
        ensures
            r.status_code is None,
            has_exception_type(r, name@),
            !r.is_timeout,
            !r.is_connection_error,
            r.retry_after_s is None,
    {
        ErrorInfo {
            status_code: None,
            exception_type: Some(name.to_owned()),
            is_timeout: false,
            is_connection_error: false,
            retry_after_s: None,
        }
    }

    /// Sets the HTTP status code, keeping every other field.
    pub fn with_status(self, code: u16) -> (r: Self)
        ensures
            r.status_code == Some(code),
            r.exception_type == self.exception_type,
            r.is_timeout == self.is_timeout,
            r.is_connection_error == self.is_connection_error,
            r.retry_after_s == self.retry_after_s,
    {
        let mut s = self;
        s.status_code = Some(code);
        s
    }

    /// Sets the exception type name, keeping every other field.
    pub fn with_type_name(self, name: &str) -> (r: Self)
        ensures
            r.status_code == self.status_code,
            has_exception_type(r, name@),
            r.is_timeout == self.is_timeout,
            r.is_connection_error == self.is_connection_error,
            r.retry_after_s == self.retry_after_s,
    {
        let mut s = self;
        s.exception_type = Some(name.to_owned());
        s
    }

    /// Sets the retry-after delay (the bit pattern of its seconds value),
    /// keeping every other field.
    pub fn with_retry_after(self, secs_bits: u64) -> (r: Self)
        ensures
            r.status_code == self.status_code,
            r.exception_type == self.exception_type,
            r.is_timeout == self.is_timeout,
            r.is_connection_error == self.is_connection_error,
            r.retry_after_s == Some(secs_bits),
    {
        let mut s = self;
        s.retry_after_s = Some(secs_bits);
        s
    }

    /// Marks the error as a timeout, keeping every other field.
    pub fn as_timeout(self) -> (r: Self)
        ensures
            r.status_code == self.status_code,
            r.exception_type == self.exception_type,
            r.is_timeout,
            r.is_connection_error == self.is_connection_error,
            r.retry_after_s == self.retry_after_s,
    {
        let mut s = self;
        s.is_timeout = true;
        s
    }

    /// Marks the error as a connection error, keeping every other field.
    pub fn as_connection_error(self) -> (r: Self)
        ensures
            r.status_code == self.status_code,
            r.exception_type == self.exception_type,
            r.is_timeout == self.is_timeout,
            r.is_connection_error,
            r.retry_after_s == self.retry_after_s,
    {
        let mut s = self;
        s.is_connection_error = true;
        s
    }
}

} // verus!
