//! Saturating and exact integer arithmetic shared by the window rules.

use vstd::prelude::*;

verus! {

/// Twice `w`, saturating at `u64::MAX` instead of wrapping.
pub open spec fn sat_double(w: u64) -> u64 {
    if 2 * w <= u64::MAX {
        (2 * w) as u64
    } else {
        u64::MAX
    }
}

/// `w + a`, saturating at `u64::MAX` instead of wrapping.
pub open spec fn sat_add(w: u64, a: u64) -> u64 {
    if w + a <= u64::MAX {
        (w + a) as u64
    } else {
        u64::MAX
    }
}

/// `w`, raised to one if it is below one.
pub open spec fn at_least_one(w: u64) -> u64 {
    if w >= 1 {
        w
    } else {
        1u64
    }
}

/// `a * b / c` in exact integer arithmetic, rounded down, saturating at
/// `u64::MAX` when the quotient leaves the 64-bit range.
pub open spec fn spec_mul_div_sat(a: u64, b: u64, c: u64) -> u64
    recommends
        c >= 1,
{
    let q = (a * b) / (c as int);
    if q > u64::MAX {
        u64::MAX
    } else {
        q as u64
    }
}

/// Computes `a * b / c` exactly through 128-bit intermediates, so the product
/// can never overflow; a quotient beyond the 64-bit range saturates at
/// `u64::MAX`.
pub fn mul_div_sat(a: u64, b: u64, c: u64) -> (r: u64)
    requires
        c >= 1,
    ensures
        r == spec_mul_div_sat(a, b, c),
{
    proof {
        assert((a as int) * (b as int) <= (u64::MAX as int) * (u64::MAX as int))
            by (nonlinear_arith)
            requires
                a <= u64::MAX,
                b <= u64::MAX,
        ;
    }
    let wide: u128 = (a as u128) * (b as u128);
    let q: u128 = wide / (c as u128);
    if q > u64::MAX as u128 {
        u64::MAX
    } else {
        q as u64
    }
}

} // verus!
