//! Maps tool errors into a closed [`ErrorKind`] so that an agent loop can
//! decide what to do next: fix the arguments, retry, back off, or give up.
//!
//! Classification runs in three passes: the HTTP status code, then the
//! network flags (`is_timeout`, then `is_connection_error`), then keyword
//! matching on the exception type name. An earlier pass always wins.

pub mod kind;
pub mod text;
pub mod info;
pub mod classify;
pub mod equality;
pub mod laws;

pub use kind::ErrorKind;

pub use classify::{classify, classify_by_name, classify_by_status, classify_name, classify_status};
pub use info::{ClassifiedError, ErrorInfo};
