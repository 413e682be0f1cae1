//! The numeric representation of converted magnitudes: an exact
//! rational number.
//!
//! Conversion factors and converted magnitudes are ratios of integers
//! (a thousand nanoseconds to the microsecond, 56699/2 milligrams to
//! the ounce), so the library keeps them as exact fractions.  Two
//! values are the same rational exactly when their cross products
//! agree; fractions are not reduced.

use vstd::prelude::*;

verus! {

/// Whether a mathematical integer fits `i128`.
pub open spec fn in_i128(x: int) -> bool {
    i128::MIN <= x <= i128::MAX
}

/// An exact rational number `num / den` with a positive denominator.
#[derive(Clone, Copy, Debug, PartialEq, Eq, Structural)]
pub struct DisplayValue {
    pub num: i128,
    pub den: i128,
}

impl DisplayValue {
    /// Well-formed rationals keep the sign in the numerator.
    pub open spec fn wf(self) -> bool {
        self.den > 0
    }

    /// Equality of the represented rationals: `a/b == c/d` exactly
    /// when `a*d == c*b` (for positive denominators).
    pub open spec fn ratio_eq(self, other: Self) -> bool {
        self.num * other.den == other.num * self.den
    }

    /// The product of the represented rationals, under the range
    /// conditions of [`DisplayValue::mul`].
    pub open spec fn mul_spec(self, rhs: Self) -> DisplayValue {
        DisplayValue { num: (self.num * rhs.num) as i128, den: (self.den * rhs.den) as i128 }
    }

    /// The quotient of the represented rationals, under the range
    /// conditions of [`DisplayValue::div`].  The divisor's sign moves
    /// into the numerator so the denominator stays positive.
    pub open spec fn div_spec(self, rhs: Self) -> DisplayValue {
        if rhs.num > 0 {
            DisplayValue { num: (self.num * rhs.den) as i128, den: (self.den * rhs.num) as i128 }
        } else {
            DisplayValue {
                num: (-(self.num * rhs.den)) as i128,
                den: (self.den * -rhs.num) as i128,
            }
        }
    }

    /// Builds the rational `num / den`.
    pub fn new(num: i128, den: i128) -> (r: Self)
        requires
            den > 0,
        ensures
            r == (DisplayValue { num, den }),
            r.wf(),
    {
        DisplayValue { num, den }
    }

    /// Builds the whole number `n`.
    pub fn from_int(n: i128) -> (r: Self)
        ensures
            r == (DisplayValue { num: n, den: 1 }),
            r.wf(),
    {
        DisplayValue { num: n, den: 1 }
    }

    /// Exact product of two rationals.
    pub fn mul(self, rhs: Self) -> (r: Self)
        requires
            self.wf(),
            rhs.wf(),
            in_i128(self.num * rhs.num),
            in_i128(self.den * rhs.den),
        ensures
            r == self.mul_spec(rhs),
            r.num == self.num * rhs.num,
            r.den == self.den * rhs.den,
            r.wf(),
    {
        proof {
            assert(self.den * rhs.den > 0) by (nonlinear_arith)
                requires
                    self.den > 0,
                    rhs.den > 0,
            ;
        }
        DisplayValue { num: self.num * rhs.num, den: self.den * rhs.den }
    }

    /// Exact quotient of two rationals.  Division by the zero rational
    /// is excluded by precondition.
    pub fn div(self, rhs: Self) -> (r: Self)
        requires
            self.wf(),
            rhs.wf(),
            rhs.num != 0,
            in_i128(-rhs.num),
            in_i128(self.num * rhs.den),
            in_i128(-(self.num * rhs.den)),
            in_i128(self.den * rhs.num),
            in_i128(-(self.den * rhs.num)),
        ensures
            r == self.div_spec(rhs),
            r.wf(),
    {
        if rhs.num > 0 {
            proof {
                assert(self.den * rhs.num > 0) by (nonlinear_arith)
                    requires
                        self.den > 0,
                        rhs.num > 0,
                ;
            }
            DisplayValue { num: self.num * rhs.den, den: self.den * rhs.num }
        } else {
            proof {
                assert(self.den * -rhs.num > 0) by (nonlinear_arith)
                    requires
                        self.den > 0,
                        rhs.num < 0,
                ;
                assert(self.den * -rhs.num == -(self.den * rhs.num)) by (nonlinear_arith);
            }
            DisplayValue { num: -(self.num * rhs.den), den: self.den * -rhs.num }
        }
    }

    /// Whether two values represent the same rational number.
    pub fn eq_value(self, rhs: Self) -> (b: bool)
        requires
            self.wf(),
            rhs.wf(),
            in_i128(self.num * rhs.den),
            in_i128(rhs.num * self.den),
        ensures
            b == self.ratio_eq(rhs),
    {
        self.num * rhs.den == rhs.num * self.den
    }
}

/// Multiplying a rational by a positive factor and dividing the result
/// by the same factor yields the original rational: the heart of the
/// conversion round trip between display and base representations.
pub proof fn lemma_mul_div_round_trip(x: DisplayValue, f: DisplayValue)
    requires
        x.wf(),
        f.wf(),
        f.num > 0,
        in_i128(x.num * f.num),
        in_i128(x.den * f.den),
        in_i128((x.num * f.num) * f.den),
        in_i128((x.den * f.den) * f.num),
    ensures
        x.mul_spec(f).div_spec(f).ratio_eq(x),
{
    let m = x.mul_spec(f);
    assert(m.num == x.num * f.num && m.den == x.den * f.den);
    let d = m.div_spec(f);
    assert(d.num == (x.num * f.num) * f.den && d.den == (x.den * f.den) * f.num);
    assert(((x.num * f.num) * f.den) * x.den == x.num * ((x.den * f.den) * f.num))
        by (nonlinear_arith);
}

} // verus!
