use unit_algebra::DisplayValue;
use unit_algebra::ElectricCurrent;
use unit_algebra::Length;
use unit_algebra::Mass;
use unit_algebra::StandardUnitImpl;
use unit_algebra::Time;
use unit_algebra::UnitDims;
use unit_algebra::base_repr;
use unit_algebra::display_repr;

#[test]
fn one_hour_is_three_thousand_six_hundred_seconds() {
    let hour = base_repr(Time::Hour, DisplayValue::from_int(1));
    let seconds = base_repr(Time::Second, DisplayValue::from_int(3600));
    assert!(hour.eq_value(seconds));
}

#[test]
fn one_kilogram_is_a_thousand_grams() {
    let kilogram = base_repr(Mass::Kilogram, DisplayValue::from_int(1));
    let grams = base_repr(Mass::Gram, DisplayValue::from_int(1000));
    assert!(kilogram.eq_value(grams));
}

#[test]
fn one_kilometer_is_a_thousand_meters() {
    let kilometer = base_repr(Length::Kilometer, DisplayValue::from_int(1));
    let meters = base_repr(Length::Meter, DisplayValue::from_int(1000));
    assert!(kilometer.eq_value(meters));
}

#[test]
fn one_millisecond_is_a_million_nanoseconds() {
    let millisecond = base_repr(Time::Millisecond, DisplayValue::from_int(1));
    let nanoseconds = base_repr(Time::Nanosecond, DisplayValue::from_int(1_000_000));
    assert!(millisecond.eq_value(nanoseconds));
}

#[test]
fn base_units_have_factor_one() {
    assert!(Time::base_unit().amount_of_base().eq_value(DisplayValue::from_int(1)));
    assert_eq!(Time::base_unit(), Time::Nanosecond);
    assert_eq!(Length::base_unit(), Length::NanoMeter);
    assert_eq!(Mass::base_unit(), Mass::Milligram);
    assert_eq!(ElectricCurrent::base_unit(), ElectricCurrent::Picoampere);
}

#[test]
fn catalog_dimensions_are_the_base_axes() {
    assert_eq!(Time::dims(), UnitDims::time_axis());
    assert_eq!(Length::dims(), UnitDims::length_axis());
    assert_eq!(Mass::dims(), UnitDims::mass_axis());
    assert_eq!(ElectricCurrent::dims(), UnitDims::electric_current_axis());
}

#[test]
fn fractional_factors_are_exact() {
    let ounce = Mass::Oz.amount_of_base();
    assert!(ounce.eq_value(DisplayValue::new(283_495, 10)));
    let pound = Mass::Pound.amount_of_base();
    assert!(pound.eq_value(DisplayValue::new(45_359_237, 100)));
    let ton = Mass::Ton.amount_of_base();
    assert!(ton.eq_value(pound.mul(DisplayValue::from_int(2000))));
}

#[test]
fn ampere_ladder_climbs_by_thousands() {
    let ampere = ElectricCurrent::Ampere.amount_of_base();
    let milliampere = ElectricCurrent::Milliampere.amount_of_base();
    assert!(ampere.eq_value(milliampere.mul(DisplayValue::from_int(1000))));
    assert_eq!(ampere.num, 1_000_000_000_000);
}

#[test]
fn display_and_base_representations_round_trip() {
    let magnitudes: Vec<DisplayValue> = vec![
        DisplayValue::from_int(0),
        DisplayValue::from_int(7),
        DisplayValue::from_int(-3),
        DisplayValue::new(5, 2),
        DisplayValue::new(-123_456, 1000),
    ];
    for x in magnitudes {
        let through_ounces = display_repr(Mass::Oz, base_repr(Mass::Oz, x));
        assert!(through_ounces.eq_value(x));
        let through_hours = display_repr(Time::Hour, base_repr(Time::Hour, x));
        assert!(through_hours.eq_value(x));
        let through_light_years = display_repr(Length::LightYear, base_repr(Length::LightYear, x));
        assert!(through_light_years.eq_value(x));
    }
}

#[test]
fn display_repr_divides_by_the_factor() {
    let half_minute = display_repr(Time::Minute, DisplayValue::from_int(30_000_000_000));
    assert!(half_minute.eq_value(DisplayValue::new(1, 2)));
}
