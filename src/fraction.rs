use vstd::prelude::*;

verus! {

/// A mathematical fraction `num / den`; it denotes a number only when `den != 0`.
pub struct Frac {
    pub num: int,
    pub den: int,
}

impl Frac {
    /// The fraction denotes a number.
    pub open spec fn defined(self) -> bool {
        self.den != 0
    }

    /// The fraction denotes zero.
    pub open spec fn is_zero(self) -> bool {
        self.defined() && self.num == 0
    }

    /// Both fractions denote the same number.
    pub open spec fn same_value(self, o: Frac) -> bool {
        self.defined() && o.defined() && self.num * o.den == o.num * self.den
    }

    /// `self` denotes a smaller number than `o` (both with positive denominators).
    pub open spec fn less_than(self, o: Frac) -> bool {
        self.den > 0 && o.den > 0 && self.num * o.den < o.num * self.den
    }

    /// The negated fraction.
    pub open spec fn neg(self) -> Frac {
        Frac { num: -self.num, den: self.den }
    }
}

/// An executable fraction `num / den` of 128-bit integers. A zero denominator
/// marks a quantity that is undefined (a division by zero in the statistic).
#[derive(Clone, Copy, Debug, PartialEq, Eq)]
pub struct Ratio {
    pub num: i128,
    pub den: i128,
}

impl Ratio {
    /// The fraction has a positive denominator of at most 32 bits and a
    /// numerator of at most 64 bits: the range in which observed means and
    /// variances are taken.
    pub open spec fn fits(self) -> bool {
        i64::MIN <= self.num <= i64::MAX && 0 < self.den <= u32::MAX
    }
}

impl View for Ratio {
    type V = Frac;

    open spec fn view(&self) -> Frac {
        Frac { num: self.num as int, den: self.den as int }
    }
}

} // verus!
