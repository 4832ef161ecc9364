//! The decrease factor: the divisor applied to a window on a congestion
//! signal, kept as an exact positive rational so that the shrunken window is
//! a precise integer floor.

use vstd::prelude::*;
use crate::arith::{mul_div_sat, spec_mul_div_sat};

verus! {

/// A positive rational `num / den`, the divisor of the multiplicative
/// decrease.  A factor above one shrinks a window; a factor below one grows
/// it.
#[derive(Clone, Copy, Debug)]
pub struct DecreaseFactor {
    num: u64,
    den: u64,
}

impl DecreaseFactor {
    /// Both parts are at least one, so the factor is a well-defined positive
    /// rational; every reachable value satisfies this.
    #[verifier::type_invariant]
    spec fn inv(self) -> bool {
        self.num >= 1 && self.den >= 1
    }

    /// The numerator of the factor.
    pub closed spec fn numerator(self) -> u64 {
        self.num
    }

    /// The denominator of the factor.
    pub closed spec fn denominator(self) -> u64 {
        self.den
    }

    /// Well-formedness of the factor as a spec-level value: both parts at
    /// least one.  Every executable value satisfies it by construction.
    pub open spec fn wf(self) -> bool {
        self.numerator() >= 1 && self.denominator() >= 1
    }

    /// The factor is at least one, so dividing by it never grows a value.
    pub open spec fn is_at_least_one(self) -> bool {
        self.denominator() <= self.numerator()
    }

    /// Builds the factor `num / den`.  A zero part would denote a
    /// non-positive factor and is rejected as a configuration error.
    pub fn new(num: u64, den: u64) -> (r: Option<DecreaseFactor>)
        ensures
            (r is Some) <==> (num >= 1 && den >= 1),
            r is Some ==> r.unwrap().numerator() == num && r.unwrap().denominator() == den,
    {
        if num >= 1 && den >= 1 {
            Some(DecreaseFactor { num, den })
        } else {
            None
        }
    }

    /// Divides `w` by the factor: `floor(w * den / num)`, saturating at
    /// `u64::MAX` (reachable only with a factor below one).
    pub fn divide(&self, w: u64) -> (r: u64)
        ensures
            r == spec_divide(w, *self),
    {
        proof {
            use_type_invariant(&*self);
        }
        mul_div_sat(w, self.den, self.num)
    }
}

/// `w` divided by the factor `f`, rounded down, saturating at `u64::MAX`.
pub open spec fn spec_divide(w: u64, f: DecreaseFactor) -> u64
    recommends
        f.wf(),
{
    spec_mul_div_sat(w, f.denominator(), f.numerator())
}

} // verus!
