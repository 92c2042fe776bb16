//! Equality of classification results.
//!
//! A delay is compared the way `f64` values are compared, working on the
//! bit patterns that the results hold: a NaN equals nothing, itself
//! included, and positive zero equals negative zero; any other two values
//! are equal exactly when their bits are.

use crate::info::ClassifiedError;
use vstd::prelude::*;
use vstd::std_specs::cmp::PartialEqSpecImpl;

verus! {

/// The bits of an `f64` that encode its exponent.
pub const EXPONENT_BITS: u64 = 0x7ff0_0000_0000_0000u64;

/// The bits of an `f64` that encode its fraction.
pub const FRACTION_BITS: u64 = 0x000f_ffff_ffff_ffffu64;

/// Every bit of an `f64` but its sign.
pub const MAGNITUDE_BITS: u64 = 0x7fff_ffff_ffff_ffffu64;

/// The `f64` with bit pattern `x` is a NaN.
pub open spec fn is_nan_bits(x: u64) -> bool {
    x & EXPONENT_BITS == EXPONENT_BITS && x & FRACTION_BITS != 0
}

/// The `f64` values with bit patterns `a` and `b` are equal.
pub open spec fn f64_bits_eq(a: u64, b: u64) -> bool {
    &&& !is_nan_bits(a)
    &&& !is_nan_bits(b)
    &&& (a == b || (a | b) & MAGNITUDE_BITS == 0)
}

/// Two optional delays are equal: both absent, or both present and equal
/// as `f64` values.
pub open spec fn delays_eq(a: Option<u64>, b: Option<u64>) -> bool {
    match (a, b) {
        (None, None) => true,
        (Some(x), Some(y)) => f64_bits_eq(x, y),
        _ => false,
    }
}

/// Two results are equal: same kind, same hint text, same status code,
/// and equal delays.
pub open spec fn results_eq(a: ClassifiedError, b: ClassifiedError) -> bool {
    &&& a.kind == b.kind
    &&& a.hint@ == b.hint@
    &&& a.status_code == b.status_code
    &&& delays_eq(a.retry_after_s, b.retry_after_s)
}

/// Two bit patterns have no magnitude bits between them exactly when each
/// is positive or negative zero.
pub proof fn lemma_only_zeros_lack_magnitude(x: u64, y: u64)
    ensures
        ((x | y) & MAGNITUDE_BITS == 0) == ((x == 0 || x == 0x8000_0000_0000_0000u64) && (y == 0
            || y == 0x8000_0000_0000_0000u64)),
{
    assert(((x | y) & 0x7fff_ffff_ffff_ffffu64 == 0) == ((x == 0 || x
        == 0x8000_0000_0000_0000u64) && (y == 0 || y == 0x8000_0000_0000_0000u64))) by (bit_vector);
}

/// Whether two optional delays are equal.
fn delays_equal(a: Option<u64>, b: Option<u64>) -> (r: bool)
    ensures
        r == delays_eq(a, b),
{
    match (a, b) {
        (None, None) => true,
        (Some(x), Some(y)) => {
            let x_nan = x & EXPONENT_BITS == EXPONENT_BITS && x & FRACTION_BITS != 0;
            let y_nan = y & EXPONENT_BITS == EXPONENT_BITS && y & FRACTION_BITS != 0;
            !x_nan && !y_nan && (x == y || (x | y) & MAGNITUDE_BITS == 0)
        },
        _ => false,
    }
}

/// Whether two optional status codes are equal.
fn status_equal(a: Option<u16>, b: Option<u16>) -> (r: bool)
    ensures
        r == (a == b),
{
    match (a, b) {
        (None, None) => true,
        (Some(x), Some(y)) => x == y,
        _ => false,
    }
}

impl PartialEq for ClassifiedError {
    fn eq(&self, other: &Self) -> (r: bool)
        ensures
            r == (self.kind == other.kind && self.hint@ == other.hint@ && self.status_code
                == other.status_code && match (self.retry_after_s, other.retry_after_s) {
                (None, None) => true,
                (Some(x), Some(y)) => !is_nan_bits(x) && !is_nan_bits(y) && (x == y || (x == 0
                    || x == 0x8000_0000_0000_0000u64) && (y == 0 || y == 0x8000_0000_0000_0000u64)),
                _ => false,
            }),
    {
        proof {
            if let (Some(x), Some(y)) = (self.retry_after_s, other.retry_after_s) {
                lemma_only_zeros_lack_magnitude(x, y);
            }
        }
        self.kind == other.kind && self.hint == other.hint && status_equal(
            self.status_code,
            other.status_code,
        ) && delays_equal(self.retry_after_s, other.retry_after_s)
    }
}

impl PartialEqSpecImpl for ClassifiedError {
    open spec fn obeys_eq_spec() -> bool {
        true
    }

    open spec fn eq_spec(&self, other: &Self) -> bool {
        results_eq(*self, *other)
    }
}

} // verus!
