//! A bounded percentage value and its projection onto an index range.

use vstd::prelude::*;
use vstd::arithmetic::div_mod::{lemma_div_is_ordered, lemma_div_multiples_vanish};
use vstd::arithmetic::mul::lemma_mul_inequality;

verus! {

/// A percentage in the closed range `[0, 100]`.
///
/// Construction outside the range is rejected, so every value of this type
/// satisfies the bound.
#[derive(Clone, Copy, Debug, PartialEq, Eq, Structural)]
pub struct Percent {
    percent: u8,
}

impl Percent {
    /// The numeric value carried by this percentage.
    pub closed spec fn value(self) -> int {
        self.percent as int
    }

    /// Every constructed percentage lies in the closed range `[0, 100]`.
    #[verifier::type_invariant]
    pub open spec fn wf(self) -> bool {
        0 <= self.value() <= 100
    }

    /// Accepts exactly the values in `[0, 100]`; anything larger is rejected.
    pub fn new(n: u8) -> (r: Result<Percent, String>)
        ensures
            n <= 100 <==> r is Ok,
            r matches Ok(p) ==> p.value() == n && p.wf(),
            r matches Err(e) ==> e@ == "Out of bounds"@,
    {
        if n > 100 {
            return Err(String::from_str("Out of bounds"));
        }
        Ok(Percent { percent: n })
    }

    /// Builds a percentage from a value already known to be in range.
    pub(crate) fn from_valid(n: u8) -> (r: Percent)
        requires
            n <= 100,
        ensures
            r.value() == n,
            r.wf(),
    {
        Percent { percent: n }
    }

    /// Projects the percentage onto `[0, value]`: returns
    /// `floor(percent / 100 * value)`, which never exceeds `value`,
    /// is `0` at percent `0` and exactly `value` at percent `100`.
    pub fn map_to_value(&self, value: usize) -> (r: usize)
        ensures
            r == self.value() * value / 100,
            r <= value,
            self.value() == 0 ==> r == 0,
            self.value() == 100 ==> r == value,
    {
        proof {
            use_type_invariant(self);
            lemma_mul_inequality(self.value(), 100, value as int);
            lemma_div_is_ordered(self.value() * value, 100 * value, 100);
            lemma_div_multiples_vanish(value as int, 100);
        }
        let x: u128 = ((value as u128) * (self.percent as u128)) / 100;
        proof {
            assert((value as int) * (self.percent as int) == self.value() * value) by (nonlinear_arith);
            assert(self.value() == 0 ==> self.value() * value == 0) by (nonlinear_arith);
            assert(x as int == self.value() * value / 100);
            assert(x <= value as u128);
        }
        x as usize
    }
}

} // verus!
