//! Fixed-point scalar arithmetic.
//!
//! A model quantity `q` (people, days, rates) is carried as the integer
//! `q * SCALE` in an `i64`, giving nine fractional decimal digits.  Every
//! operation is failure-aware: it returns its exact truncated value while
//! that value fits the carrier, and `None` otherwise, so a whole chain of
//! operations either computes the exact fixed-point result or reports the
//! first failure instead of wrapping around.

use vstd::prelude::*;

verus! {

/// Number of carrier units in one whole model unit.
pub const SCALE: i64 = 1_000_000_000;

/// Truncating (round-toward-zero) division; meaningful for `b > 0`.
pub open spec fn div_tz(a: int, b: int) -> int {
    if a >= 0 {
        a / b
    } else {
        -((-a) / b)
    }
}

/// Whether `x` fits the `i64` carrier of fixed-point scalars.
pub open spec fn in_range(x: int) -> bool {
    i64::MIN <= x <= i64::MAX
}

/// A computation step keeps its exact value while it fits the carrier and
/// fails otherwise; a failure swallows every later step.
pub open spec fn ranged(x: int) -> Option<int> {
    if in_range(x) {
        Some(x)
    } else {
        None
    }
}

/// Lifts a concrete scalar into a failure-aware value.
pub open spec fn lift(x: i64) -> Option<int> {
    Some(x as int)
}

/// The abstract value that an executable result stands for.
pub open spec fn value_of(r: Option<i64>) -> Option<int> {
    match r {
        Some(x) => Some(x as int),
        None => None,
    }
}

/// Failure-aware fixed-point addition.
pub open spec fn add_c(a: Option<int>, b: Option<int>) -> Option<int> {
    match (a, b) {
        (Some(x), Some(y)) => ranged(x + y),
        _ => None,
    }
}

/// Failure-aware fixed-point subtraction.
pub open spec fn sub_c(a: Option<int>, b: Option<int>) -> Option<int> {
    match (a, b) {
        (Some(x), Some(y)) => ranged(x - y),
        _ => None,
    }
}

/// Failure-aware fixed-point multiplication: the exact product, rescaled by
/// `SCALE` with truncation.
pub open spec fn mul_c(a: Option<int>, b: Option<int>) -> Option<int> {
    match (a, b) {
        (Some(x), Some(y)) => ranged(div_tz(x * y, SCALE as int)),
        _ => None,
    }
}

/// Failure-aware fixed-point division.  A divisor that is not strictly
/// positive is a failure: this is the guard against dividing by a vanished
/// or negative population.
pub open spec fn div_c(a: Option<int>, b: Option<int>) -> Option<int> {
    match (a, b) {
        (Some(x), Some(y)) => if y <= 0 {
            None
        } else {
            ranged(div_tz(x * SCALE, y))
        },
        _ => None,
    }
}

/// Failure-aware division of a fixed-point value by a plain positive
/// integer count (a weight denominator, a day count, a neighbour count).
pub open spec fn divi_c(a: Option<int>, k: int) -> Option<int> {
    match a {
        Some(x) => if k <= 0 {
            None
        } else {
            Some(div_tz(x, k))
        },
        None => None,
    }
}

/// Truncating division by a positive divisor never grows a value's
/// magnitude and never flips its sign away from zero.
pub(crate) proof fn lemma_div_magnitude(x: int, d: int)
    by (nonlinear_arith)
    requires
        d >= 1,
    ensures
        x >= 0 ==> 0 <= x / d <= x,
        x < 0 ==> 0 <= (x * -1) / d <= x * -1,
        x < 0 ==> x <= ((x * -1) / d) * -1 <= 0,
        x == 0 ==> x / d == 0,
        x < 0 ==> ((x * -1) / d) * -1 == -((-x) / d),
{
}

/// Multiplication by zero yields zero.
pub(crate) proof fn lemma_mul_zero(x: int)
    by (nonlinear_arith)
    ensures
        x * 0 == 0,
        0 * x == 0,
{
}

/// Truncating division of zero yields zero.
pub(crate) proof fn lemma_div_tz_zero(d: int)
    requires
        d >= 1,
    ensures
        div_tz(0, d) == 0,
{
    lemma_div_magnitude(0, d);
}

/// A fixed-point product with a zero factor is exactly zero.
pub(crate) proof fn lemma_mul_c_zero(a: Option<int>)
    ensures
        a is Some ==> mul_c(a, Some(0)) == Some(0int),
        a is Some ==> mul_c(Some(0), a) == Some(0int),
{
    if a is Some {
        lemma_mul_zero(a.unwrap());
        lemma_div_tz_zero(SCALE as int);
    }
}

/// Executable fixed-point addition.
pub fn add_fx(a: i64, b: i64) -> (r: Option<i64>)
    ensures
        value_of(r) == add_c(lift(a), lift(b)),
{
    a.checked_add(b)
}

/// Executable fixed-point subtraction.
pub fn sub_fx(a: i64, b: i64) -> (r: Option<i64>)
    ensures
        value_of(r) == sub_c(lift(a), lift(b)),
{
    a.checked_sub(b)
}

/// Executable fixed-point multiplication.
pub fn mul_fx(a: i64, b: i64) -> (r: Option<i64>)
    ensures
        value_of(r) == mul_c(lift(a), lift(b)),
{
    // The product of two carrier values always fits the doubled-width
    // intermediate.
    assert(i64::MIN * i64::MIN <= 0x4000_0000_0000_0000_0000_0000_0000_0000int)
        by (nonlinear_arith);
    assert((a as int) * (b as int) <= i64::MIN * i64::MIN
        && (a as int) * (b as int) >= i64::MIN * i64::MAX) by (nonlinear_arith)
        requires
            i64::MIN <= a <= i64::MAX,
            i64::MIN <= b <= i64::MAX,
    ;
    let p: i128 = (a as i128) * (b as i128);
    proof {
        lemma_div_magnitude(p as int, SCALE as int);
    }
    let q: i128 = match p.checked_div(SCALE as i128) {
        Some(q) => q,
        None => {
            // The divisor is a positive constant, so division cannot fail.
            proof {
                assert(false);
            }
            0
        },
    };
    if q < (i64::MIN as i128) || q > (i64::MAX as i128) {
        None
    } else {
        Some(q as i64)
    }
}

/// Executable fixed-point division by a fixed-point divisor.
pub fn div_fx(a: i64, b: i64) -> (r: Option<i64>)
    ensures
        value_of(r) == div_c(lift(a), lift(b)),
{
    if b <= 0 {
        return None;
    }
    // Rescaling the dividend always fits the doubled-width
    // intermediate.
    assert((a as int) * (SCALE as int) <= i64::MIN * i64::MIN
        && (a as int) * (SCALE as int) >= i64::MIN * i64::MAX) by (nonlinear_arith)
        requires
            i64::MIN <= a <= i64::MAX,
    ;
    assert(i64::MIN * i64::MIN <= 0x4000_0000_0000_0000_0000_0000_0000_0000int)
        by (nonlinear_arith);
    let p: i128 = (a as i128) * (SCALE as i128);
    let q: i128 = match p.checked_div(b as i128) {
        Some(q) => q,
        None => {
            // The divisor is strictly positive, so division cannot fail.
            proof {
                lemma_div_magnitude(p as int, b as int);
                assert(false);
            }
            0
        },
    };
    if q < (i64::MIN as i128) || q > (i64::MAX as i128) {
        None
    } else {
        Some(q as i64)
    }
}

/// Executable division of a fixed-point value by a plain integer count.
pub fn divi_fx(a: i64, k: i64) -> (r: Option<i64>)
    ensures
        value_of(r) == divi_c(lift(a), k as int),
{
    if k <= 0 {
        return None;
    }
    match a.checked_div(k) {
        Some(q) => Some(q),
        None => {
            // `k` is strictly positive, so neither failure case of
            // `checked_div` (zero divisor, `MIN / -1`) can arise.
            proof {
                lemma_div_magnitude(a as int, k as int);
                assert(false);
            }
            None
        },
    }
}

} // verus!
