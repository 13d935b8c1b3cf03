use vstd::prelude::*;

use crate::rational::Rational;

verus! {

/// Converts a Celsius temperature to Fahrenheit exactly, by the formula
/// `F = C * 9/5 + 32` carried out over the rational representation:
/// the result is the fraction `(9 * C.num + 160 * C.den) / (5 * C.den)`.
pub fn celsius_to_fahrenheit(temp: Rational) -> (r: Rational)
    requires
        temp.wf(),
        i64::MIN <= 9 * temp.num <= i64::MAX,
        160 * temp.den <= i64::MAX,
        i64::MIN <= 9 * temp.num + 160 * temp.den <= i64::MAX,
        5 * temp.den <= i64::MAX,
    ensures
        r.wf(),
        r.num == 9 * temp.num + 160 * temp.den,
        r.den == 5 * temp.den,
{
    let num: i64 = 9 * temp.num + 160 * temp.den;
    let den: i64 = 5 * temp.den;
    Rational::new(num, den)
}

} // verus!
