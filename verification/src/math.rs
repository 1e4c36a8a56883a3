//! Overflow-checked and saturating arithmetic helpers.
//!
//! Every arithmetic step of the state transition must either be proved free
//! of overflow or use an explicitly checked or saturating operation; a
//! checked operation that fails is reported as an arithmetic error, which is
//! always fatal to the transition.

use vstd::prelude::*;

verus! {

/// An arithmetic failure: overflow of a 64-bit quantity, or division by zero.
#[derive(Clone, Copy, Debug, PartialEq, Eq, Structural)]
pub enum ArithError {
    Overflow,
    DivisionByZero,
}

/// Checked addition: `Ok` exactly when the mathematical sum fits in a `u64`.
pub fn safe_add(a: u64, b: u64) -> (r: Result<u64, ArithError>)
    ensures
        a + b <= u64::MAX ==> r == Ok::<u64, ArithError>((a + b) as u64),
        a + b > u64::MAX ==> r == Err::<u64, ArithError>(ArithError::Overflow),
{
    match a.checked_add(b) {
        Some(s) => Ok(s),
        None => Err(ArithError::Overflow),
    }
}

/// Checked subtraction: `Ok` exactly when the difference is non-negative.
pub fn safe_sub(a: u64, b: u64) -> (r: Result<u64, ArithError>)
    ensures
        a >= b ==> r == Ok::<u64, ArithError>((a - b) as u64),
        a < b ==> r == Err::<u64, ArithError>(ArithError::Overflow),
{
    match a.checked_sub(b) {
        Some(s) => Ok(s),
        None => Err(ArithError::Overflow),
    }
}

/// Checked multiplication: `Ok` exactly when the product fits in a `u64`.
pub fn safe_mul(a: u64, b: u64) -> (r: Result<u64, ArithError>)
    ensures
        a * b <= u64::MAX ==> r == Ok::<u64, ArithError>((a * b) as u64),
        a * b > u64::MAX ==> r == Err::<u64, ArithError>(ArithError::Overflow),
{
    match a.checked_mul(b) {
        Some(s) => Ok(s),
        None => Err(ArithError::Overflow),
    }
}

/// Checked division: `Ok` exactly when the divisor is non-zero.
pub fn safe_div(a: u64, b: u64) -> (r: Result<u64, ArithError>)
    ensures
        b != 0 ==> r == Ok::<u64, ArithError>((a as int / b as int) as u64),
        b == 0 ==> r == Err::<u64, ArithError>(ArithError::DivisionByZero),
{
    if b == 0 {
        Err(ArithError::DivisionByZero)
    } else {
        Ok(a / b)
    }
}

/// The saturating sum of two `u64` values, as a mathematical function.
pub open spec fn spec_saturating_add(a: u64, b: u64) -> u64 {
    if a + b > u64::MAX {
        u64::MAX
    } else {
        (a + b) as u64
    }
}

/// The saturating difference of two `u64` values, as a mathematical function.
pub open spec fn spec_saturating_sub(a: u64, b: u64) -> u64 {
    if a >= b {
        (a - b) as u64
    } else {
        0
    }
}

/// The saturating product of two `u64` values, as a mathematical function.
pub open spec fn spec_saturating_mul(a: u64, b: u64) -> u64 {
    if a * b > u64::MAX {
        u64::MAX
    } else {
        (a * b) as u64
    }
}

/// Saturating multiplication, clamped to `u64::MAX`.
pub fn saturating_mul(a: u64, b: u64) -> (r: u64)
    ensures
        r == spec_saturating_mul(a, b),
{
    match a.checked_mul(b) {
        Some(p) => p,
        None => u64::MAX,
    }
}

/// Saturating addition, clamped to `u64::MAX`.
pub fn saturating_add(a: u64, b: u64) -> (r: u64)
    ensures
        r == spec_saturating_add(a, b),
{
    if a <= u64::MAX - b {
        a + b
    } else {
        u64::MAX
    }
}

/// Saturating subtraction, clamped to zero.
pub fn saturating_sub(a: u64, b: u64) -> (r: u64)
    ensures
        r == spec_saturating_sub(a, b),
{
    if a >= b {
        a - b
    } else {
        0
    }
}

/// `r` is the integer square root of `n`.
pub open spec fn is_integer_sqrt(n: u64, r: u64) -> bool {
    r * r <= n && (r + 1) * (r + 1) > n
}

/// The integer square root as a value: the unique `r` with
/// `r * r <= n < (r + 1) * (r + 1)`.
pub open spec fn spec_integer_sqrt(n: u64) -> u64 {
    choose|r: u64| is_integer_sqrt(n, r)
}

/// Two integer square roots of the same number are equal.
pub proof fn lemma_integer_sqrt_unique(n: u64, r1: u64, r2: u64)
    requires
        is_integer_sqrt(n, r1),
        is_integer_sqrt(n, r2),
    ensures
        r1 == r2,
{
    assert(r1 == r2) by (nonlinear_arith)
        requires
            r1 * r1 <= n,
            (r1 + 1) * (r1 + 1) > n,
            r2 * r2 <= n,
            (r2 + 1) * (r2 + 1) > n,
    ;
}

/// The integer square root: the largest `r` with `r * r <= n`.
pub fn integer_sqrt(n: u64) -> (r: u64)
    ensures
        is_integer_sqrt(n, r),
        r == spec_integer_sqrt(n),
{
    let mut low: u64 = 0;
    let mut high: u64 = if n < 0xFFFF_FFFF { n + 1 } else { 0x1_0000_0000 };
    proof {
        if n < 0xFFFF_FFFF {
            assert((n + 1) * (n + 1) > n) by (nonlinear_arith);
        }
    }
    // Invariant: low * low <= n < high * high, so the answer is in [low, high).
    while high - low > 1
        invariant
            low < high,
            low * low <= n,
            high * high > n,
        decreases high - low,
    {
        let mid = low + (high - low) / 2;
        proof {
            assert(low < mid < high);
            assert(mid * mid <= u64::MAX * u64::MAX) by (nonlinear_arith)
                requires mid <= u64::MAX,
            ;
        }
        let sq = (mid as u128) * (mid as u128);
        if sq <= n as u128 {
            low = mid;
        } else {
            high = mid;
        }
    }
    proof {
        assert(is_integer_sqrt(n, low));
        assert(is_integer_sqrt(n, spec_integer_sqrt(n)));
        lemma_integer_sqrt_unique(n, low, spec_integer_sqrt(n));
    }
    low
}

} // verus!
