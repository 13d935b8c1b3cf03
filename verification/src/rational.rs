use vstd::prelude::*;

verus! {

/// An exact fraction of two 64-bit integers, standing in for decimal values
/// such as temperatures and means. A well-formed value has a positive
/// denominator and denotes the quotient `num / den`.
#[derive(Clone, Copy, Debug, PartialEq, Eq, Structural)]
pub struct Rational {
    pub num: i64,
    pub den: i64,
}

impl Rational {
    /// A rational is well formed when its denominator is positive.
    pub open spec fn wf(self) -> bool {
        self.den >= 1
    }

    /// The rational denotes exactly the integer `n`.
    pub open spec fn is_integer(self, n: int) -> bool {
        self.num == n * self.den
    }

    /// Builds the fraction `num / den`.
    pub fn new(num: i64, den: i64) -> (r: Rational)
        requires
            den >= 1,
        ensures
            r.num == num,
            r.den == den,
            r.wf(),
    {
        Rational { num, den }
    }

    /// Builds the rational that denotes the integer `n`.
    pub fn from_int(n: i64) -> (r: Rational)
        ensures
            r.num == n,
            r.den == 1,
            r.wf(),
            r.is_integer(n as int),
    {
        Rational { num: n, den: 1 }
    }
}

} // verus!
