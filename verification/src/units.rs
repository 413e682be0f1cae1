//! The unit catalogs: named units per physical dimension, each with
//! an exact conversion factor to its catalog's base unit, together
//! with composite units built from them.
//!
//! The base unit of a catalog is its finest-grained variant (factor
//! one); every other factor is the product of the declared real-world
//! ratios down the ladder, kept as an exact rational.

use vstd::prelude::*;

use crate::display_value::DisplayValue;
use crate::display_value::in_i128;
use crate::unit_dims::DimsType;
use crate::unit_dims::UnitDims;
use crate::value::Sealed;

verus! {

/// Time units, counted in nanoseconds.
pub type TimeUnit = Time;

/// Mass units, counted in milligrams.
pub type MassUnit = Mass;

/// Length units, counted in nanometers.
pub type LengthUnit = Length;

/// Electric-current units, counted in picoamperes.
pub type ElectricCurrentUnit = ElectricCurrent;

/// A catalog of named units for one physical dimension.  Every
/// variant shares the catalog's fixed dimension vector and exposes an
/// exact positive conversion factor to the catalog's base unit.
pub trait StandardUnitImpl: Sealed + Sized + Copy {
    /// The fixed dimension vector shared by every unit of the catalog.
    spec fn dims_spec() -> UnitDims;

    /// The conversion factor: how many base units this unit equals.
    spec fn factor_spec(self) -> DisplayValue;

    /// Every factor is a well-formed, strictly positive rational.
    proof fn lemma_factor_positive(self)
        ensures
            self.factor_spec().wf(),
            self.factor_spec().num > 0,
    ;

    /// The catalog's fixed dimension vector.
    fn dims() -> (r: UnitDims)
        ensures
            r == Self::dims_spec(),
    ;

    /// The catalog's base unit: the variant whose factor is one.
    fn base_unit() -> (r: Self)
        ensures
            r.factor_spec() == (DisplayValue { num: 1, den: 1 }),
    ;

    /// How many of the catalog's base unit this unit equals.
    fn amount_of_base(self) -> (r: DisplayValue)
        ensures
            r == self.factor_spec(),
    ;
}

/// A magnitude expressed in `unit`, converted to the catalog's base
/// representation: the magnitude times the unit's factor.
pub fn base_repr<SU: StandardUnitImpl>(unit: SU, display_value: DisplayValue) -> (r:
    DisplayValue)
    requires
        display_value.wf(),
        in_i128(display_value.num * unit.factor_spec().num),
        in_i128(display_value.den * unit.factor_spec().den),
    ensures
        r == display_value.mul_spec(unit.factor_spec()),
        r.wf(),
{
    proof {
        unit.lemma_factor_positive();
    }
    display_value.mul(unit.amount_of_base())
}

/// A magnitude in base representation, converted to a multiple of
/// `unit`: the magnitude divided by the unit's factor.
pub fn display_repr<SU: StandardUnitImpl>(unit: SU, base_value: DisplayValue) -> (r:
    DisplayValue)
    requires
        base_value.wf(),
        in_i128(base_value.num * unit.factor_spec().den),
        in_i128(-(base_value.num * unit.factor_spec().den)),
        in_i128(base_value.den * unit.factor_spec().num),
    ensures
        r == base_value.div_spec(unit.factor_spec()),
        r.wf(),
{
    proof {
        unit.lemma_factor_positive();
    }
    base_value.div(unit.amount_of_base())
}

/// Round trip of the two conversions: a magnitude sent to base
/// representation through a unit and brought back through the same
/// unit is unchanged, as a rational number.
pub proof fn lemma_repr_round_trip<SU: StandardUnitImpl>(unit: SU, x: DisplayValue)
    requires
        x.wf(),
        in_i128(x.num * unit.factor_spec().num),
        in_i128(x.den * unit.factor_spec().den),
        in_i128((x.num * unit.factor_spec().num) * unit.factor_spec().den),
        in_i128((x.den * unit.factor_spec().den) * unit.factor_spec().num),
    ensures
        x.mul_spec(unit.factor_spec()).div_spec(unit.factor_spec()).ratio_eq(x),
{
    unit.lemma_factor_positive();
    crate::display_value::lemma_mul_div_round_trip(x, unit.factor_spec());
}

/// Named units of time; the base unit is the nanosecond.
#[derive(Clone, Copy, Debug, PartialEq, Eq, Hash, Structural)]
pub enum Time {
    Nanosecond,
    Microsecond,
    Millisecond,
    Second,
    Minute,
    Hour,
    GSDay,
    GSMonth,
    GSYear,
    GSCentury,
    GSMillennium,
}

impl Sealed for Time {

}

impl StandardUnitImpl for Time {
    open spec fn dims_spec() -> UnitDims {
        UnitDims::time_axis_spec()
    }

    open spec fn factor_spec(self) -> DisplayValue {
        match self {
            Time::Nanosecond => DisplayValue { num: 1, den: 1 },
            Time::Microsecond => DisplayValue { num: 1_000, den: 1 },
            Time::Millisecond => DisplayValue { num: 1_000_000, den: 1 },
            Time::Second => DisplayValue { num: 1_000_000_000, den: 1 },
            Time::Minute => DisplayValue { num: 60_000_000_000, den: 1 },
            Time::Hour => DisplayValue { num: 3_600_000_000_000, den: 1 },
            Time::GSDay => DisplayValue { num: 86_400_000_000_000, den: 1 },
            Time::GSMonth => DisplayValue { num: 2_592_000_000_000_000, den: 1 },
            Time::GSYear => DisplayValue { num: 31_104_000_000_000_000, den: 1 },
            Time::GSCentury => DisplayValue { num: 3_110_400_000_000_000_000, den: 1 },
            Time::GSMillennium => DisplayValue { num: 31_104_000_000_000_000_000, den: 1 },
        }
    }

    proof fn lemma_factor_positive(self) {
    }

    fn dims() -> (r: UnitDims) {
        UnitDims::time_axis()
    }

    fn base_unit() -> (r: Self) {
        Time::Nanosecond
    }

    fn amount_of_base(self) -> (r: DisplayValue) {
        match self {
            Time::Nanosecond => DisplayValue::from_int(1),
            Time::Microsecond => DisplayValue::from_int(1_000),
            Time::Millisecond => DisplayValue::from_int(1_000_000),
            Time::Second => DisplayValue::from_int(1_000_000_000),
            Time::Minute => DisplayValue::from_int(60_000_000_000),
            Time::Hour => DisplayValue::from_int(3_600_000_000_000),
            Time::GSDay => DisplayValue::from_int(86_400_000_000_000),
            Time::GSMonth => DisplayValue::from_int(2_592_000_000_000_000),
            Time::GSYear => DisplayValue::from_int(31_104_000_000_000_000),
            Time::GSCentury => DisplayValue::from_int(3_110_400_000_000_000_000),
            Time::GSMillennium => DisplayValue::from_int(31_104_000_000_000_000_000),
        }
    }
}

/// Named units of length; the base unit is the nanometer.
#[derive(Clone, Copy, Debug, PartialEq, Eq, Hash, Structural)]
pub enum Length {
    NanoMeter,
    MicroMeter,
    MilliMeter,
    Centimeter,
    Decimeter,
    Meter,
    Kilometer,
    AU,
    LightYear,
}

impl Sealed for Length {

}

impl StandardUnitImpl for Length {
    open spec fn dims_spec() -> UnitDims {
        UnitDims::length_axis_spec()
    }

    open spec fn factor_spec(self) -> DisplayValue {
        match self {
            Length::NanoMeter => DisplayValue { num: 1, den: 1 },
            Length::MicroMeter => DisplayValue { num: 1_000, den: 1 },
            Length::MilliMeter => DisplayValue { num: 1_000_000, den: 1 },
            Length::Centimeter => DisplayValue { num: 10_000_000, den: 1 },
            Length::Decimeter => DisplayValue { num: 100_000_000, den: 1 },
            Length::Meter => DisplayValue { num: 1_000_000_000, den: 1 },
            Length::Kilometer => DisplayValue { num: 1_000_000_000_000, den: 1 },
            Length::AU => DisplayValue { num: 149_600_000_000_000_000_000, den: 1 },
            Length::LightYear => DisplayValue { num: 9_461_000_000_000_000_000_000_000, den: 1 },
        }
    }

    proof fn lemma_factor_positive(self) {
    }

    fn dims() -> (r: UnitDims) {
        UnitDims::length_axis()
    }

    fn base_unit() -> (r: Self) {
        Length::NanoMeter
    }

    fn amount_of_base(self) -> (r: DisplayValue) {
        match self {
            Length::NanoMeter => DisplayValue::from_int(1),
            Length::MicroMeter => DisplayValue::from_int(1_000),
            Length::MilliMeter => DisplayValue::from_int(1_000_000),
            Length::Centimeter => DisplayValue::from_int(10_000_000),
            Length::Decimeter => DisplayValue::from_int(100_000_000),
            Length::Meter => DisplayValue::from_int(1_000_000_000),
            Length::Kilometer => DisplayValue::from_int(1_000_000_000_000),
            Length::AU => DisplayValue::from_int(149_600_000_000_000_000_000),
            Length::LightYear => DisplayValue::from_int(9_461_000_000_000_000_000_000_000),
        }
    }
}

/// Named units of mass; the base unit is the milligram.
#[derive(Clone, Copy, Debug, PartialEq, Eq, Hash, Structural)]
pub enum Mass {
    Milligram,
    Gram,
    Kilogram,
    Tonne,
    Oz,
    Pound,
    Ton,
    EarthMass,
    SolarMass,
}

impl Sealed for Mass {

}

impl StandardUnitImpl for Mass {
    open spec fn dims_spec() -> UnitDims {
        UnitDims::mass_axis_spec()
    }

    open spec fn factor_spec(self) -> DisplayValue {
        match self {
            Mass::Milligram => DisplayValue { num: 1, den: 1 },
            Mass::Gram => DisplayValue { num: 1_000, den: 1 },
            Mass::Kilogram => DisplayValue { num: 1_000_000, den: 1 },
            Mass::Tonne => DisplayValue { num: 1_000_000_000, den: 1 },
            Mass::Oz => DisplayValue { num: 56_699, den: 2 },
            Mass::Pound => DisplayValue { num: 45_359_237, den: 100 },
            Mass::Ton => DisplayValue { num: 907_184_740, den: 1 },
            Mass::EarthMass => DisplayValue { num: 5_972_200_000_000_000_000_000_000_000_000, den: 1 },
            Mass::SolarMass => DisplayValue { num: 1_989_000_000_000_000_000_000_000_000_000_000_000, den: 1 },
        }
    }

    proof fn lemma_factor_positive(self) {
    }

    fn dims() -> (r: UnitDims) {
        UnitDims::mass_axis()
    }

    fn base_unit() -> (r: Self) {
        Mass::Milligram
    }

    fn amount_of_base(self) -> (r: DisplayValue) {
        match self {
            Mass::Milligram => DisplayValue::from_int(1),
            Mass::Gram => DisplayValue::from_int(1_000),
            Mass::Kilogram => DisplayValue::from_int(1_000_000),
            Mass::Tonne => DisplayValue::from_int(1_000_000_000),
            Mass::Oz => DisplayValue::new(56_699, 2),
            Mass::Pound => DisplayValue::new(45_359_237, 100),
            Mass::Ton => DisplayValue::from_int(907_184_740),
            Mass::EarthMass => DisplayValue::from_int(5_972_200_000_000_000_000_000_000_000_000),
            Mass::SolarMass => DisplayValue::from_int(1_989_000_000_000_000_000_000_000_000_000_000_000),
        }
    }
}

/// Named units of electric current; the base unit is the picoampere.
#[derive(Clone, Copy, Debug, PartialEq, Eq, Hash, Structural)]
pub enum ElectricCurrent {
    Picoampere,
    Nanoampere,
    Microampere,
    Milliampere,
    Ampere,
}

impl Sealed for ElectricCurrent {

}

impl StandardUnitImpl for ElectricCurrent {
    open spec fn dims_spec() -> UnitDims {
        UnitDims::electric_current_axis_spec()
    }

    open spec fn factor_spec(self) -> DisplayValue {
        match self {
            ElectricCurrent::Picoampere => DisplayValue { num: 1, den: 1 },
            ElectricCurrent::Nanoampere => DisplayValue { num: 1_000, den: 1 },
            ElectricCurrent::Microampere => DisplayValue { num: 1_000_000, den: 1 },
            ElectricCurrent::Milliampere => DisplayValue { num: 1_000_000_000, den: 1 },
            ElectricCurrent::Ampere => DisplayValue { num: 1_000_000_000_000, den: 1 },
        }
    }

    proof fn lemma_factor_positive(self) {
    }

    fn dims() -> (r: UnitDims) {
        UnitDims::electric_current_axis()
    }

    fn base_unit() -> (r: Self) {
        ElectricCurrent::Picoampere
    }

    fn amount_of_base(self) -> (r: DisplayValue) {
        match self {
            ElectricCurrent::Picoampere => DisplayValue::from_int(1),
            ElectricCurrent::Nanoampere => DisplayValue::from_int(1_000),
            ElectricCurrent::Microampere => DisplayValue::from_int(1_000_000),
            ElectricCurrent::Milliampere => DisplayValue::from_int(1_000_000_000),
            ElectricCurrent::Ampere => DisplayValue::from_int(1_000_000_000_000),
        }
    }
}


/// The declared ladder of time units: each factor is the stated
/// real-world multiple of the unit it is defined from, down to the
/// nanosecond.
pub proof fn lemma_time_factor_chain()
    ensures
        Time::Nanosecond.factor_spec() == (DisplayValue { num: 1, den: 1 }),
        Time::Microsecond.factor_spec().num == 1_000 * Time::Nanosecond.factor_spec().num,
        Time::Millisecond.factor_spec().num == 1_000 * Time::Microsecond.factor_spec().num,
        Time::Second.factor_spec().num == 1_000 * Time::Millisecond.factor_spec().num,
        Time::Minute.factor_spec().num == 60 * Time::Second.factor_spec().num,
        Time::Hour.factor_spec().num == 60 * Time::Minute.factor_spec().num,
        Time::GSDay.factor_spec().num == 24 * Time::Hour.factor_spec().num,
        Time::GSMonth.factor_spec().num == 30 * Time::GSDay.factor_spec().num,
        Time::GSYear.factor_spec().num == 12 * Time::GSMonth.factor_spec().num,
        Time::GSCentury.factor_spec().num == 100 * Time::GSYear.factor_spec().num,
        Time::GSMillennium.factor_spec().num == 1_000 * Time::GSYear.factor_spec().num,
{
}

/// The declared ladder of length units, down to the nanometer.
pub proof fn lemma_length_factor_chain()
    ensures
        Length::NanoMeter.factor_spec() == (DisplayValue { num: 1, den: 1 }),
        Length::MicroMeter.factor_spec().num == 1_000 * Length::NanoMeter.factor_spec().num,
        Length::MilliMeter.factor_spec().num == 1_000 * Length::MicroMeter.factor_spec().num,
        Length::Centimeter.factor_spec().num == 10 * Length::MilliMeter.factor_spec().num,
        Length::Decimeter.factor_spec().num == 100 * Length::MilliMeter.factor_spec().num,
        Length::Meter.factor_spec().num == 1_000 * Length::MilliMeter.factor_spec().num,
        Length::Kilometer.factor_spec().num == 1_000 * Length::Meter.factor_spec().num,
        Length::AU.factor_spec().num == 149_600_000_000 * Length::Meter.factor_spec().num,
        Length::LightYear.factor_spec().num == 9_461_000_000_000_000
            * Length::Meter.factor_spec().num,
{
}

/// The declared ladder of mass units, down to the milligram.  The
/// ounce and the pound are the stated decimal fractions of the gram,
/// as rationals.
pub proof fn lemma_mass_factor_chain()
    ensures
        Mass::Milligram.factor_spec() == (DisplayValue { num: 1, den: 1 }),
        Mass::Gram.factor_spec().num == 1_000 * Mass::Milligram.factor_spec().num,
        Mass::Kilogram.factor_spec().num == 1_000 * Mass::Gram.factor_spec().num,
        Mass::Tonne.factor_spec().num == 1_000 * Mass::Kilogram.factor_spec().num,
        Mass::Oz.factor_spec().ratio_eq((DisplayValue { num: 283_495_000, den: 10_000 })),
        Mass::Pound.factor_spec().ratio_eq(
            (DisplayValue { num: 45_359_237_000, den: 100_000 }),
        ),
        Mass::Ton.factor_spec().ratio_eq((DisplayValue { num: 90_718_474_000, den: 100 })),
        Mass::EarthMass.factor_spec().num == 5_972_200_000_000_000_000_000_000
            * Mass::Kilogram.factor_spec().num,
        Mass::SolarMass.factor_spec().num == 1_989_000_000_000_000_000_000_000_000_000
            * Mass::Kilogram.factor_spec().num,
{
}

/// The declared ladder of electric-current units, down to the
/// picoampere.
pub proof fn lemma_electric_current_factor_chain()
    ensures
        ElectricCurrent::Picoampere.factor_spec() == (DisplayValue { num: 1, den: 1 }),
        ElectricCurrent::Nanoampere.factor_spec().num == 1_000
            * ElectricCurrent::Picoampere.factor_spec().num,
        ElectricCurrent::Microampere.factor_spec().num == 1_000
            * ElectricCurrent::Nanoampere.factor_spec().num,
        ElectricCurrent::Milliampere.factor_spec().num == 1_000
            * ElectricCurrent::Microampere.factor_spec().num,
        ElectricCurrent::Ampere.factor_spec().num == 1_000
            * ElectricCurrent::Milliampere.factor_spec().num,
{
}

/// One named unit drawn from any of the four catalogs.
#[derive(Clone, Copy, Debug)]
pub enum StandardUnit {
    Time(TimeUnit),
    Mass(MassUnit),
    Length(LengthUnit),
    ElectricCurrent(ElectricCurrentUnit),
}

impl StandardUnit {
    /// The fixed dimension vector of the catalog the unit belongs to.
    pub open spec fn dims_spec(self) -> UnitDims {
        match self {
            StandardUnit::Time(_) => UnitDims::time_axis_spec(),
            StandardUnit::Mass(_) => UnitDims::mass_axis_spec(),
            StandardUnit::Length(_) => UnitDims::length_axis_spec(),
            StandardUnit::ElectricCurrent(_) => UnitDims::electric_current_axis_spec(),
        }
    }

    /// The dimension vector of the catalog the unit belongs to.
    pub fn dims(&self) -> (r: UnitDims)
        ensures
            r == self.dims_spec(),
    {
        match self {
            StandardUnit::Time(_) => TimeUnit::dims(),
            StandardUnit::Mass(_) => MassUnit::dims(),
            StandardUnit::Length(_) => LengthUnit::dims(),
            StandardUnit::ElectricCurrent(_) => ElectricCurrentUnit::dims(),
        }
    }
}

/// A unit for dimension derivation: either a catalog unit or an ad
/// hoc unit that names its own dimension vector and factor.
#[derive(Clone, Copy, Debug)]
pub enum Unit {
    Standard(StandardUnit),
    Custom { dims: UnitDims, amount_of_base: DisplayValue },
}

impl Unit {
    /// The unit's dimension vector.
    pub open spec fn dims_spec(self) -> UnitDims {
        match self {
            Unit::Standard(standard) => standard.dims_spec(),
            Unit::Custom { dims, .. } => dims,
        }
    }

    /// The unit's dimension vector.
    pub fn dims(&self) -> (r: UnitDims)
        ensures
            r == self.dims_spec(),
    {
        match self {
            Unit::Standard(standard) => standard.dims(),
            Unit::Custom { dims, .. } => *dims,
        }
    }
}

/// An ordered product of (unit, exponent) pairs, used to derive one
/// aggregate dimension vector for expressions that span catalogs
/// (length times time to the minus one, say).  It computes a
/// dimension; it never wraps a magnitude.
#[derive(Clone, Debug)]
pub struct CompositeUnit {
    pub units: Vec<(Unit, DimsType)>,
}

impl CompositeUnit {
    /// Member exponents are meant to be nonzero; a zero exponent is
    /// meaningless in a product of units.  Folding does not
    /// re-validate this: a zero-exponent member merely contributes
    /// nothing.
    pub open spec fn wf(self) -> bool {
        forall|i: int| 0 <= i < self.units@.len() ==> (#[trigger] self.units@[i]).1 != 0
    }

    /// One folding step: the accumulated vector plus a member's
    /// dimension scaled by its exponent.
    pub open spec fn step_spec(acc: UnitDims, member: (Unit, DimsType)) -> UnitDims {
        acc.add_spec(member.0.dims_spec().scale_spec(member.1))
    }

    /// Whether one folding step stays in exponent range.
    pub open spec fn step_ok(acc: UnitDims, member: (Unit, DimsType)) -> bool {
        member.0.dims_spec().can_scale(member.1) && acc.can_add(
            member.0.dims_spec().scale_spec(member.1),
        )
    }

    /// The left fold of [`CompositeUnit::step_spec`] over the members.
    pub open spec fn fold_spec(s: Seq<(Unit, DimsType)>, acc: UnitDims) -> UnitDims
        decreases s.len(),
    {
        if s.len() == 0 {
            acc
        } else {
            Self::fold_spec(s.drop_first(), Self::step_spec(acc, s[0]))
        }
    }

    /// Whether every step of the fold stays in exponent range.
    pub open spec fn fold_ok(s: Seq<(Unit, DimsType)>, acc: UnitDims) -> bool
        decreases s.len(),
    {
        s.len() == 0 || (Self::step_ok(acc, s[0]) && Self::fold_ok(
            s.drop_first(),
            Self::step_spec(acc, s[0]),
        ))
    }

    /// The derived dimension vector of the whole composite: the sum,
    /// over members, of each unit's dimension scaled by its exponent.
    pub open spec fn dims_spec(self) -> UnitDims {
        Self::fold_spec(self.units@, UnitDims::dimensionless_spec())
    }

    /// Folds the member list into one dimension vector, starting from
    /// the dimensionless vector.
    pub fn dims(&self) -> (out: UnitDims)
        requires
            Self::fold_ok(self.units@, UnitDims::dimensionless_spec()),
        ensures
            out == self.dims_spec(),
    {
        let mut out = UnitDims::default();
        let n = self.units.len();
        let mut i: usize = 0;
        proof {
            assert(self.units@.skip(0) =~= self.units@);
        }
        while i < n
            invariant
                i <= n,
                n == self.units@.len(),
                Self::fold_ok(self.units@.skip(i as int), out),
                Self::fold_spec(self.units@, UnitDims::dimensionless_spec()) == Self::fold_spec(
                    self.units@.skip(i as int),
                    out,
                ),
            decreases n - i,
    {
            proof {
                assert(self.units@.skip(i as int)[0] == self.units@[i as int]);
                assert(self.units@.skip(i as int).drop_first() =~= self.units@.skip(i as int + 1));
            }
            let (unit, multiplier) = self.units[i];
            out = out.add(unit.dims().mul(multiplier));
            i += 1;
        }
        out
    }
}

} // verus!
