//! The dimension vector: seven signed integer exponents over the
//! physical base dimensions.

use vstd::prelude::*;

verus! {

/// Integer type of the exponents in a [`UnitDims`] vector.
pub type DimsType = isize;

/// Whether a mathematical integer fits the exponent type.
pub open spec fn in_dims_range(x: int) -> bool {
    isize::MIN <= x <= isize::MAX
}

/// Magnitude of a mathematical integer.
pub open spec fn abs_int(a: int) -> int {
    if a >= 0 {
        a
    } else {
        -a
    }
}

/// Quotient rounded toward zero, the semantics of Rust's `/` operator
/// (spec-level `/` rounds toward negative infinity instead).
pub open spec fn trunc_div(a: int, b: int) -> int {
    if (a >= 0) == (b >= 0) {
        abs_int(a) / abs_int(b)
    } else {
        -(abs_int(a) / abs_int(b))
    }
}

/// Remainder matching [`trunc_div`], the semantics of Rust's `%` operator.
pub open spec fn trunc_rem(a: int, b: int) -> int {
    a - b * trunc_div(a, b)
}

/// Relates the truncating quotient and remainder to Euclidean division
/// of the magnitudes, one sign case at a time.
pub(crate) proof fn lemma_trunc_div_rem(x: int, d: int)
    requires
        d != 0,
    ensures
        x == 0 ==> trunc_div(x, d) == 0,
        x > 0 && d > 0 ==> trunc_div(x, d) == x / d && trunc_rem(x, d) == x % d,
        x < 0 && d < 0 ==> trunc_div(x, d) == (x * -1) / (d * -1) && trunc_rem(x, d) == ((x * -1)
            % (d * -1)) * -1,
        x < 0 && d > 0 ==> trunc_div(x, d) == ((x * -1) / d) * -1 && trunc_rem(x, d) == ((x * -1)
            % d) * -1,
        x > 0 && d < 0 ==> trunc_div(x, d) == (x / (d * -1)) * -1 && trunc_rem(x, d) == x % (d
            * -1),
        0 <= abs_int(trunc_rem(x, d)) < abs_int(d),
        abs_int(trunc_div(x, d)) <= abs_int(x),
        d == -1 ==> trunc_div(x, d) == -x,
{
    if d == -1 {
        assert(abs_int(x) / 1 == abs_int(x)) by (nonlinear_arith);
    }
    let qa = abs_int(x) / abs_int(d);
    let ra = abs_int(x) % abs_int(d);
    vstd::arithmetic::div_mod::lemma_fundamental_div_mod(abs_int(x), abs_int(d));
    vstd::arithmetic::div_mod::lemma_mod_bound(abs_int(x), abs_int(d));
    assert(abs_int(x) == abs_int(d) * qa + ra);
    assert(qa >= 0) by (nonlinear_arith)
        requires
            abs_int(x) == abs_int(d) * qa + ra,
            abs_int(x) >= 0,
            abs_int(d) > 0,
            0 <= ra < abs_int(d),
    ;
    assert(qa <= abs_int(x)) by (nonlinear_arith)
        requires
            abs_int(x) == abs_int(d) * qa + ra,
            abs_int(d) >= 1,
            qa >= 0,
            ra >= 0,
    ;
    if x > 0 && d > 0 {
        assert(trunc_rem(x, d) == x - d * qa);
        assert(x - d * qa == ra) by (nonlinear_arith)
            requires
                x == d * qa + ra,
        ;
    } else if x < 0 && d < 0 {
        assert(trunc_div(x, d) == qa);
        assert(trunc_rem(x, d) == x - d * qa);
        assert(x - d * qa == ra * -1) by (nonlinear_arith)
            requires
                -x == (-d) * qa + ra,
        ;
    } else if x < 0 && d > 0 {
        assert(trunc_div(x, d) == qa * -1);
        assert(trunc_rem(x, d) == x - d * (qa * -1));
        assert(x - d * (qa * -1) == ra * -1) by (nonlinear_arith)
            requires
                -x == d * qa + ra,
        ;
    } else if x > 0 && d < 0 {
        assert(trunc_div(x, d) == qa * -1);
        assert(trunc_rem(x, d) == x - d * (qa * -1));
        assert(x - d * (qa * -1) == ra) by (nonlinear_arith)
            requires
                x == (-d) * qa + ra,
        ;
    } else {
        assert(x == 0);
        assert(qa == 0) by (nonlinear_arith)
            requires
                0 == abs_int(d) * qa + ra,
                0 <= ra < abs_int(d),
                qa >= 0,
        ;
        assert(trunc_rem(x, d) == 0 - d * 0);
    }
}

/// A product divided by its own nonzero right factor recovers the
/// left factor exactly, under truncating division.
pub proof fn lemma_trunc_div_of_product(a: int, b: int)
    requires
        b != 0,
    ensures
        trunc_div(a * b, b) == a,
{
    let p = a * b;
    assert(abs_int(p) == abs_int(a) * abs_int(b)) by (nonlinear_arith)
        requires
            p == a * b,
    ;
    vstd::arithmetic::div_mod::lemma_div_multiples_vanish(abs_int(a), abs_int(b));
    assert(abs_int(b) * abs_int(a) == abs_int(a) * abs_int(b)) by (nonlinear_arith);
    assert(abs_int(p) / abs_int(b) == abs_int(a));
    if a == 0 {
        assert(p == 0) by (nonlinear_arith)
            requires
                p == a * b,
                a == 0,
        ;
    } else if a > 0 {
        assert((p >= 0) == (b >= 0)) by (nonlinear_arith)
            requires
                p == a * b,
                a > 0,
                b != 0,
        ;
    } else {
        assert((p >= 0) != (b >= 0)) by (nonlinear_arith)
            requires
                p == a * b,
                a < 0,
                b != 0,
        ;
    }
}

/// One exponent divided by a nonzero scalar, rounding toward zero.
fn div_exponent(a: DimsType, b: DimsType) -> (r: DimsType)
    requires
        b != 0,
        in_dims_range(trunc_div(a as int, b as int)),
    ensures
        r == trunc_div(a as int, b as int),
{
    proof {
        lemma_trunc_div_rem(a as int, b as int);
    }
    match a.checked_div(b) {
        Some(q) => q,
        None => {
            proof {
                assert(false);
            }
            vstd::pervasive::unreached()
        },
    }
}

/// One exponent reduced modulo a nonzero scalar, the remainder of
/// [`div_exponent`].
fn rem_exponent(a: DimsType, b: DimsType) -> (r: DimsType)
    requires
        b != 0,
        in_dims_range(trunc_div(a as int, b as int)),
    ensures
        r == trunc_rem(a as int, b as int),
{
    proof {
        lemma_trunc_div_rem(a as int, b as int);
        let x = a as int;
        let d = b as int;
        if x == 0 {
            assert(trunc_rem(x, d) == 0);
        } else if x > 0 && d > 0 {
            assert(trunc_rem(x, d) == x % d);
        } else if x < 0 && d < 0 {
            assert(trunc_rem(x, d) == ((x * -1) % (d * -1)) * -1);
        } else if x < 0 {
            assert(trunc_rem(x, d) == ((x * -1) % d) * -1);
        } else {
            assert(trunc_rem(x, d) == x % (d * -1));
        }
    }
    match a.checked_rem(b) {
        Some(q) => q,
        None => {
            proof {
                assert(false);
            }
            vstd::pervasive::unreached()
        },
    }
}

/// A physical dimension as a vector of integer exponents, one per SI
/// base quantity.  Multiplying two physical quantities adds their
/// vectors; dividing subtracts them; only quantities with equal
/// vectors may be added or subtracted.
#[derive(Clone, Copy, Debug, PartialEq, Eq, Structural)]
pub struct UnitDims {
    pub time: DimsType,
    pub length: DimsType,
    pub mass: DimsType,
    pub electric_current: DimsType,
    pub temperature: DimsType,
    pub amount: DimsType,
    pub luminous_intensity: DimsType,
}

impl UnitDims {
    /// The all-zero vector: the dimension of a bare number, and the
    /// identity for vector addition.
    pub open spec fn dimensionless_spec() -> UnitDims {
        UnitDims {
            time: 0,
            length: 0,
            mass: 0,
            electric_current: 0,
            temperature: 0,
            amount: 0,
            luminous_intensity: 0,
        }
    }

    #[verifier::when_used_as_spec(dimensionless_spec)]
    pub fn dimensionless() -> (r: UnitDims)
        ensures
            r == UnitDims::dimensionless_spec(),
    {
        UnitDims {
            time: 0,
            length: 0,
            mass: 0,
            electric_current: 0,
            temperature: 0,
            amount: 0,
            luminous_intensity: 0,
        }
    }

    /// The base vector with exponent one on the time axis.
    pub open spec fn time_axis_spec() -> UnitDims {
        UnitDims {
            time: 1,
            length: 0,
            mass: 0,
            electric_current: 0,
            temperature: 0,
            amount: 0,
            luminous_intensity: 0,
        }
    }

    #[verifier::when_used_as_spec(time_axis_spec)]
    pub fn time_axis() -> (r: UnitDims)
        ensures
            r == UnitDims::time_axis_spec(),
    {
        UnitDims {
            time: 1,
            length: 0,
            mass: 0,
            electric_current: 0,
            temperature: 0,
            amount: 0,
            luminous_intensity: 0,
        }
    }

    /// The base vector with exponent one on the length axis.
    pub open spec fn length_axis_spec() -> UnitDims {
        UnitDims {
            time: 0,
            length: 1,
            mass: 0,
            electric_current: 0,
            temperature: 0,
            amount: 0,
            luminous_intensity: 0,
        }
    }

    #[verifier::when_used_as_spec(length_axis_spec)]
    pub fn length_axis() -> (r: UnitDims)
        ensures
            r == UnitDims::length_axis_spec(),
    {
        UnitDims {
            time: 0,
            length: 1,
            mass: 0,
            electric_current: 0,
            temperature: 0,
            amount: 0,
            luminous_intensity: 0,
        }
    }

    /// The base vector with exponent one on the mass axis.
    pub open spec fn mass_axis_spec() -> UnitDims {
        UnitDims {
            time: 0,
            length: 0,
            mass: 1,
            electric_current: 0,
            temperature: 0,
            amount: 0,
            luminous_intensity: 0,
        }
    }

    #[verifier::when_used_as_spec(mass_axis_spec)]
    pub fn mass_axis() -> (r: UnitDims)
        ensures
            r == UnitDims::mass_axis_spec(),
    {
        UnitDims {
            time: 0,
            length: 0,
            mass: 1,
            electric_current: 0,
            temperature: 0,
            amount: 0,
            luminous_intensity: 0,
        }
    }

    /// The base vector with exponent one on the electric current axis.
    pub open spec fn electric_current_axis_spec() -> UnitDims {
        UnitDims {
            time: 0,
            length: 0,
            mass: 0,
            electric_current: 1,
            temperature: 0,
            amount: 0,
            luminous_intensity: 0,
        }
    }

    #[verifier::when_used_as_spec(electric_current_axis_spec)]
    pub fn electric_current_axis() -> (r: UnitDims)
        ensures
            r == UnitDims::electric_current_axis_spec(),
    {
        UnitDims {
            time: 0,
            length: 0,
            mass: 0,
            electric_current: 1,
            temperature: 0,
            amount: 0,
            luminous_intensity: 0,
        }
    }

    /// The base vector with exponent one on the temperature axis.
    pub open spec fn temperature_axis_spec() -> UnitDims {
        UnitDims {
            time: 0,
            length: 0,
            mass: 0,
            electric_current: 0,
            temperature: 1,
            amount: 0,
            luminous_intensity: 0,
        }
    }

    #[verifier::when_used_as_spec(temperature_axis_spec)]
    pub fn temperature_axis() -> (r: UnitDims)
        ensures
            r == UnitDims::temperature_axis_spec(),
    {
        UnitDims {
            time: 0,
            length: 0,
            mass: 0,
            electric_current: 0,
            temperature: 1,
            amount: 0,
            luminous_intensity: 0,
        }
    }

    /// The base vector with exponent one on the amount axis.
    pub open spec fn amount_axis_spec() -> UnitDims {
        UnitDims {
            time: 0,
            length: 0,
            mass: 0,
            electric_current: 0,
            temperature: 0,
            amount: 1,
            luminous_intensity: 0,
        }
    }

    #[verifier::when_used_as_spec(amount_axis_spec)]
    pub fn amount_axis() -> (r: UnitDims)
        ensures
            r == UnitDims::amount_axis_spec(),
    {
        UnitDims {
            time: 0,
            length: 0,
            mass: 0,
            electric_current: 0,
            temperature: 0,
            amount: 1,
            luminous_intensity: 0,
        }
    }

    /// The base vector with exponent one on the luminous intensity axis.
    pub open spec fn luminous_intensity_axis_spec() -> UnitDims {
        UnitDims {
            time: 0,
            length: 0,
            mass: 0,
            electric_current: 0,
            temperature: 0,
            amount: 0,
            luminous_intensity: 1,
        }
    }

    #[verifier::when_used_as_spec(luminous_intensity_axis_spec)]
    pub fn luminous_intensity_axis() -> (r: UnitDims)
        ensures
            r == UnitDims::luminous_intensity_axis_spec(),
    {
        UnitDims {
            time: 0,
            length: 0,
            mass: 0,
            electric_current: 0,
            temperature: 0,
            amount: 0,
            luminous_intensity: 1,
        }
    }

    /// Whether the componentwise sum stays in exponent range.
    pub open spec fn can_add(self, rhs: Self) -> bool {
        in_dims_range(self.time + rhs.time)
        && in_dims_range(self.length + rhs.length)
        && in_dims_range(self.mass + rhs.mass)
        && in_dims_range(self.electric_current + rhs.electric_current)
        && in_dims_range(self.temperature + rhs.temperature)
        && in_dims_range(self.amount + rhs.amount)
        && in_dims_range(self.luminous_intensity + rhs.luminous_intensity)
    }

    /// The componentwise sum, under [`UnitDims::can_add`].
    pub open spec fn add_spec(self, rhs: Self) -> UnitDims {
        UnitDims {
            time: (self.time + rhs.time) as DimsType,
            length: (self.length + rhs.length) as DimsType,
            mass: (self.mass + rhs.mass) as DimsType,
            electric_current: (self.electric_current + rhs.electric_current) as DimsType,
            temperature: (self.temperature + rhs.temperature) as DimsType,
            amount: (self.amount + rhs.amount) as DimsType,
            luminous_intensity: (self.luminous_intensity + rhs.luminous_intensity) as DimsType,
        }
    }

    /// Whether the componentwise difference stays in exponent range.
    pub open spec fn can_sub(self, rhs: Self) -> bool {
        in_dims_range(self.time - rhs.time)
        && in_dims_range(self.length - rhs.length)
        && in_dims_range(self.mass - rhs.mass)
        && in_dims_range(self.electric_current - rhs.electric_current)
        && in_dims_range(self.temperature - rhs.temperature)
        && in_dims_range(self.amount - rhs.amount)
        && in_dims_range(self.luminous_intensity - rhs.luminous_intensity)
    }

    /// The componentwise difference, under [`UnitDims::can_sub`].
    pub open spec fn sub_spec(self, rhs: Self) -> UnitDims {
        UnitDims {
            time: (self.time - rhs.time) as DimsType,
            length: (self.length - rhs.length) as DimsType,
            mass: (self.mass - rhs.mass) as DimsType,
            electric_current: (self.electric_current - rhs.electric_current) as DimsType,
            temperature: (self.temperature - rhs.temperature) as DimsType,
            amount: (self.amount - rhs.amount) as DimsType,
            luminous_intensity: (self.luminous_intensity - rhs.luminous_intensity) as DimsType,
        }
    }

    /// Whether every exponent scaled by `rhs` stays in range.
    pub open spec fn can_scale(self, rhs: DimsType) -> bool {
        in_dims_range(self.time * rhs)
        && in_dims_range(self.length * rhs)
        && in_dims_range(self.mass * rhs)
        && in_dims_range(self.electric_current * rhs)
        && in_dims_range(self.temperature * rhs)
        && in_dims_range(self.amount * rhs)
        && in_dims_range(self.luminous_intensity * rhs)
    }

    /// The componentwise scalar product, under [`UnitDims::can_scale`].
    pub open spec fn scale_spec(self, rhs: DimsType) -> UnitDims {
        UnitDims {
            time: (self.time * rhs) as DimsType,
            length: (self.length * rhs) as DimsType,
            mass: (self.mass * rhs) as DimsType,
            electric_current: (self.electric_current * rhs) as DimsType,
            temperature: (self.temperature * rhs) as DimsType,
            amount: (self.amount * rhs) as DimsType,
            luminous_intensity: (self.luminous_intensity * rhs) as DimsType,
        }
    }

    /// Whether every truncating quotient by `rhs` stays in range
    /// (it can leave it only for the most negative exponent and -1).
    pub open spec fn can_divide(self, rhs: DimsType) -> bool {
        rhs != 0
        && in_dims_range(trunc_div(self.time as int, rhs as int))
        && in_dims_range(trunc_div(self.length as int, rhs as int))
        && in_dims_range(trunc_div(self.mass as int, rhs as int))
        && in_dims_range(trunc_div(self.electric_current as int, rhs as int))
        && in_dims_range(trunc_div(self.temperature as int, rhs as int))
        && in_dims_range(trunc_div(self.amount as int, rhs as int))
        && in_dims_range(trunc_div(self.luminous_intensity as int, rhs as int))
    }

    /// The componentwise truncating quotient, under [`UnitDims::can_divide`].
    pub open spec fn div_spec(self, rhs: DimsType) -> UnitDims {
        UnitDims {
            time: trunc_div(self.time as int, rhs as int) as DimsType,
            length: trunc_div(self.length as int, rhs as int) as DimsType,
            mass: trunc_div(self.mass as int, rhs as int) as DimsType,
            electric_current: trunc_div(self.electric_current as int, rhs as int) as DimsType,
            temperature: trunc_div(self.temperature as int, rhs as int) as DimsType,
            amount: trunc_div(self.amount as int, rhs as int) as DimsType,
            luminous_intensity: trunc_div(self.luminous_intensity as int, rhs as int) as DimsType,
        }
    }

    /// The componentwise remainder of [`UnitDims::div_spec`].
    pub open spec fn rem_spec(self, rhs: DimsType) -> UnitDims {
        UnitDims {
            time: trunc_rem(self.time as int, rhs as int) as DimsType,
            length: trunc_rem(self.length as int, rhs as int) as DimsType,
            mass: trunc_rem(self.mass as int, rhs as int) as DimsType,
            electric_current: trunc_rem(self.electric_current as int, rhs as int) as DimsType,
            temperature: trunc_rem(self.temperature as int, rhs as int) as DimsType,
            amount: trunc_rem(self.amount as int, rhs as int) as DimsType,
            luminous_intensity: trunc_rem(self.luminous_intensity as int, rhs as int) as DimsType,
        }
    }

    /// Componentwise sum of two dimension vectors.
    pub fn add(self, rhs: Self) -> (r: Self)
        requires
            self.can_add(rhs),
        ensures
            r == self.add_spec(rhs),
    {
        UnitDims {
            time: self.time + rhs.time,
            length: self.length + rhs.length,
            mass: self.mass + rhs.mass,
            electric_current: self.electric_current + rhs.electric_current,
            temperature: self.temperature + rhs.temperature,
            amount: self.amount + rhs.amount,
            luminous_intensity: self.luminous_intensity + rhs.luminous_intensity,
        }
    }

    /// Componentwise difference of two dimension vectors.
    pub fn sub(self, rhs: Self) -> (r: Self)
        requires
            self.can_sub(rhs),
        ensures
            r == self.sub_spec(rhs),
    {
        UnitDims {
            time: self.time - rhs.time,
            length: self.length - rhs.length,
            mass: self.mass - rhs.mass,
            electric_current: self.electric_current - rhs.electric_current,
            temperature: self.temperature - rhs.temperature,
            amount: self.amount - rhs.amount,
            luminous_intensity: self.luminous_intensity - rhs.luminous_intensity,
        }
    }

    /// Equality check for use in constant positions: returns zero when
    /// the vectors agree.  Disagreeing vectors made the original build
    /// fail, so they are excluded by precondition here: a call on them
    /// is rejected when the program is verified, never at run time.
    pub fn assert_eq(self, rhs: Self) -> (r: usize)
        requires
            self == rhs,
        ensures
            r == 0usize,
    {
        if self.time == rhs.time
            && self.length == rhs.length
            && self.mass == rhs.mass
            && self.electric_current == rhs.electric_current
            && self.temperature == rhs.temperature
            && self.amount == rhs.amount
            && self.luminous_intensity == rhs.luminous_intensity {
            0
        } else {
            proof {
                assert(false);
            }
            vstd::pervasive::unreached()
        }
    }

    /// Adapter that turns a dimension vector into a constant-friendly
    /// zero, for use alongside [`UnitDims::assert_eq`].
    pub fn convert_for_const(self) -> (r: usize)
        ensures
            r == 0usize,
    {
        0
    }

    /// Componentwise scalar multiplication.
    pub fn mul(self, rhs: DimsType) -> (r: Self)
        requires
            self.can_scale(rhs),
        ensures
            r == self.scale_spec(rhs),
    {
        UnitDims {
            time: self.time * rhs,
            length: self.length * rhs,
            mass: self.mass * rhs,
            electric_current: self.electric_current * rhs,
            temperature: self.temperature * rhs,
            amount: self.amount * rhs,
            luminous_intensity: self.luminous_intensity * rhs,
        }
    }

    /// Componentwise scalar division (round toward zero).
    pub fn div(self, rhs: DimsType) -> (r: Self)
        requires
            self.can_divide(rhs),
        ensures
            r == self.div_spec(rhs),
    {
        UnitDims {
            time: div_exponent(self.time, rhs),
            length: div_exponent(self.length, rhs),
            mass: div_exponent(self.mass, rhs),
            electric_current: div_exponent(self.electric_current, rhs),
            temperature: div_exponent(self.temperature, rhs),
            amount: div_exponent(self.amount, rhs),
            luminous_intensity: div_exponent(self.luminous_intensity, rhs),
        }
    }

    /// Componentwise scalar remainder (the sign follows the dividend,
    /// as with Rust's `%` operator).
    pub fn rem(self, rhs: DimsType) -> (r: Self)
        requires
            self.can_divide(rhs),
        ensures
            r == self.rem_spec(rhs),
    {
        UnitDims {
            time: rem_exponent(self.time, rhs),
            length: rem_exponent(self.length, rhs),
            mass: rem_exponent(self.mass, rhs),
            electric_current: rem_exponent(self.electric_current, rhs),
            temperature: rem_exponent(self.temperature, rhs),
            amount: rem_exponent(self.amount, rhs),
            luminous_intensity: rem_exponent(self.luminous_intensity, rhs),
        }
    }

    /// In-place componentwise sum.
    pub fn add_assign(&mut self, rhs: Self)
        requires
            old(self).can_add(rhs),
        ensures
            *final(self) == old(self).add_spec(rhs),
    {
        self.time += rhs.time;
        self.length += rhs.length;
        self.mass += rhs.mass;
        self.electric_current += rhs.electric_current;
        self.temperature += rhs.temperature;
        self.amount += rhs.amount;
        self.luminous_intensity += rhs.luminous_intensity;
    }

    /// In-place componentwise difference.
    pub fn sub_assign(&mut self, rhs: Self)
        requires
            old(self).can_sub(rhs),
        ensures
            *final(self) == old(self).sub_spec(rhs),
    {
        self.time -= rhs.time;
        self.length -= rhs.length;
        self.mass -= rhs.mass;
        self.electric_current -= rhs.electric_current;
        self.temperature -= rhs.temperature;
        self.amount -= rhs.amount;
        self.luminous_intensity -= rhs.luminous_intensity;
    }

    /// In-place componentwise scalar multiplication.
    pub fn mul_assign(&mut self, rhs: DimsType)
        requires
            old(self).can_scale(rhs),
        ensures
            *final(self) == old(self).scale_spec(rhs),
    {
        self.time *= rhs;
        self.length *= rhs;
        self.mass *= rhs;
        self.electric_current *= rhs;
        self.temperature *= rhs;
        self.amount *= rhs;
        self.luminous_intensity *= rhs;
    }

    /// In-place componentwise scalar division (round toward zero).
    pub fn div_assign(&mut self, rhs: DimsType)
        requires
            old(self).can_divide(rhs),
        ensures
            *final(self) == old(self).div_spec(rhs),
    {
        self.time = div_exponent(self.time, rhs);
        self.length = div_exponent(self.length, rhs);
        self.mass = div_exponent(self.mass, rhs);
        self.electric_current = div_exponent(self.electric_current, rhs);
        self.temperature = div_exponent(self.temperature, rhs);
        self.amount = div_exponent(self.amount, rhs);
        self.luminous_intensity = div_exponent(self.luminous_intensity, rhs);
    }

    /// In-place componentwise scalar remainder.
    pub fn rem_assign(&mut self, rhs: DimsType)
        requires
            old(self).can_divide(rhs),
        ensures
            *final(self) == old(self).rem_spec(rhs),
    {
        self.time = rem_exponent(self.time, rhs);
        self.length = rem_exponent(self.length, rhs);
        self.mass = rem_exponent(self.mass, rhs);
        self.electric_current = rem_exponent(self.electric_current, rhs);
        self.temperature = rem_exponent(self.temperature, rhs);
        self.amount = rem_exponent(self.amount, rhs);
        self.luminous_intensity = rem_exponent(self.luminous_intensity, rhs);
    }
}

/// The dimensionless vector is the identity of dimension-vector
/// addition.
pub proof fn lemma_dimensionless_is_add_identity(d: UnitDims)
    ensures
        d.can_add(UnitDims::dimensionless()),
        d.add_spec(UnitDims::dimensionless()) == d,
        UnitDims::dimensionless().can_add(d),
        UnitDims::dimensionless().add_spec(d) == d,
{
}

impl Default for UnitDims {
    /// The default dimension vector is dimensionless.
    fn default() -> (r: Self)
        ensures
            r == UnitDims::dimensionless_spec(),
    {
        UnitDims::dimensionless()
    }
}

} // verus!
