//! Exact percentages.
//!
//! A percentage is kept as the ratio it was measured from, `part / whole`,
//! and stands for the rational number `100 * part / whole`. Nothing is
//! rounded when a percentage is made; comparisons against a threshold are
//! exact, and rounding happens only where a caller asks for a whole number.

use vstd::prelude::*;

verus! {

/// The rational number `100 * part / whole`, with `whole > 0`.
///
/// `==` compares the part and the whole, not the number: 1 of 2 and 2 of 4
/// are both fifty percent and are not equal.
#[derive(Clone, Copy, Debug, PartialEq, Eq)]
pub struct Percentage {
    part: u64,
    whole: u64,
}

impl View for Percentage {
    type V = (nat, nat);

    /// The part and the whole, in this order.
    closed spec fn view(&self) -> (nat, nat) {
        (self.part as nat, self.whole as nat)
    }
}

impl Percentage {
    #[verifier::type_invariant]
    spec fn inv(self) -> bool {
        self.whole > 0
    }

    /// The measured amount.
    pub open spec fn part(self) -> nat {
        self@.0
    }

    /// The amount that counts as one hundred percent.
    pub open spec fn whole(self) -> nat {
        self@.1
    }

    /// The percentage is strictly greater than `percent`.
    pub open spec fn exceeds(self, percent: nat) -> bool {
        self.part() * 100 > percent * self.whole()
    }

    /// The percentage lies between 0 and 100, both included.
    pub open spec fn in_range(self) -> bool {
        self.part() <= self.whole()
    }

    /// The percentage is exactly zero.
    pub open spec fn is_zero(self) -> bool {
        self.part() == 0
    }

    /// The largest whole number `n` with `n <= percentage / divisor`.
    pub open spec fn floor_div(self, divisor: nat) -> nat {
        (self.part() * 100) / (self.whole() * divisor)
    }

    /// The part and the whole kept for a measurement: a measurement against
    /// a whole of zero counts as zero percent, kept as 0 of 1.
    pub open spec fn kept(part: u64, whole: u64) -> (nat, nat) {
        if whole == 0 {
            (0, 1)
        } else {
            (part as nat, whole as nat)
        }
    }

    /// The percentage that `part` is of `whole`.
    pub closed spec fn spec_of(part: u64, whole: u64) -> Percentage {
        if whole == 0 {
            Percentage { part: 0, whole: 1 }
        } else {
            Percentage { part, whole }
        }
    }

    /// The percentage that `part` is of `whole`; zero percent where `whole`
    /// is zero.
    pub fn of(part: u64, whole: u64) -> (p: Percentage)
        ensures
            p == Self::spec_of(part, whole),
            p@ == Self::kept(part, whole),
    {
        if whole == 0 {
            Percentage { part: 0, whole: 1 }
        } else {
            Percentage { part, whole }
        }
    }

    /// What `spec_of` keeps of its arguments.
    pub proof fn lemma_spec_of(part: u64, whole: u64)
        ensures
            Self::spec_of(part, whole)@ == Self::kept(part, whole),
    {
    }

    /// Zero percent.
    pub fn zero() -> (p: Percentage)
        ensures
            p == Self::spec_of(0, 0),
            p@ == (0nat, 1nat),
    {
        Percentage { part: 0, whole: 1 }
    }

    /// The measured amount and the amount that counts as one hundred percent.
    pub fn ratio(self) -> (r: (u64, u64))
        ensures
            (r.0 as nat, r.1 as nat) == self@,
            r.1 > 0,
    {
        proof {
            use_type_invariant(self);
        }
        (self.part, self.whole)
    }

    /// Whether the percentage is strictly greater than `percent`.
    pub fn is_above(self, percent: u64) -> (r: bool)
        ensures
            r == self.exceeds(percent as nat),
    {
        let scaled: u128 = (self.part as u128) * 100;
        assert((percent as u128) * (self.whole as u128) <= 0xffff_ffff_ffff_ffff_u128
            * 0xffff_ffff_ffff_ffff_u128) by (nonlinear_arith)
            requires
                percent as u128 <= 0xffff_ffff_ffff_ffff_u128,
                self.whole as u128 <= 0xffff_ffff_ffff_ffff_u128,
        ;
        let bound: u128 = (percent as u128) * (self.whole as u128);
        scaled > bound
    }

    /// The percentage divided by `divisor`, rounded down to a whole number.
    pub fn floor_of_quotient(self, divisor: u64) -> (r: u128)
        requires
            divisor > 0,
        ensures
            r == self.floor_div(divisor as nat),
    {
        proof {
            use_type_invariant(self);
        }
        let scaled: u128 = (self.part as u128) * 100;
        assert(0 < (self.whole as u128) * (divisor as u128) <= 0xffff_ffff_ffff_ffff_u128
            * 0xffff_ffff_ffff_ffff_u128) by (nonlinear_arith)
            requires
                0 < divisor as u128 <= 0xffff_ffff_ffff_ffff_u128,
                0 < self.whole as u128 <= 0xffff_ffff_ffff_ffff_u128,
        ;
        let unit: u128 = (self.whole as u128) * (divisor as u128);
        scaled / unit
    }
}

} // verus!
