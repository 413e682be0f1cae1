use unit_algebra::CompositeUnit;
use unit_algebra::DisplayValue;
use unit_algebra::Length;
use unit_algebra::StandardUnit;
use unit_algebra::Time;
use unit_algebra::Unit;
use unit_algebra::UnitDims;

#[test]
fn meters_per_second_is_length_minus_time() {
    let composite = CompositeUnit {
        units: vec![
            (Unit::Standard(StandardUnit::Length(Length::Meter)), 1),
            (Unit::Standard(StandardUnit::Time(Time::Second)), -1),
        ],
    };
    let derived = composite.dims();
    assert_eq!(derived, UnitDims::length_axis().sub(UnitDims::time_axis()));
    assert_eq!(derived.length, 1);
    assert_eq!(derived.time, -1);
    assert_eq!(derived.mass, 0);
}

#[test]
fn exponents_scale_each_member_dimension() {
    let acceleration = CompositeUnit {
        units: vec![
            (Unit::Standard(StandardUnit::Length(Length::Meter)), 1),
            (Unit::Standard(StandardUnit::Time(Time::Second)), -2),
        ],
    };
    let derived = acceleration.dims();
    assert_eq!(derived.length, 1);
    assert_eq!(derived.time, -2);
}

#[test]
fn empty_composite_is_dimensionless() {
    let empty = CompositeUnit { units: vec![] };
    assert_eq!(empty.dims(), UnitDims::dimensionless());
}

#[test]
fn custom_units_contribute_their_declared_dimension() {
    let custom = Unit::Custom {
        dims: UnitDims {
            time: -1,
            length: 0,
            mass: 1,
            electric_current: 0,
            temperature: 0,
            amount: 0,
            luminous_intensity: 0,
        },
        amount_of_base: DisplayValue::from_int(60_000),
    };
    assert_eq!(custom.dims().mass, 1);
    let composite = CompositeUnit { units: vec![(custom, 2)] };
    let derived = composite.dims();
    assert_eq!(derived.time, -2);
    assert_eq!(derived.mass, 2);
}

#[test]
fn standard_units_report_their_catalog_dimension() {
    let meter = Unit::Standard(StandardUnit::Length(Length::Meter));
    assert_eq!(meter.dims(), UnitDims::length_axis());
    let second = StandardUnit::Time(Time::Second);
    assert_eq!(second.dims(), UnitDims::time_axis());
}
