use unit_algebra::UnitDims;

fn dims(
    time: isize,
    length: isize,
    mass: isize,
    electric_current: isize,
    temperature: isize,
    amount: isize,
    luminous_intensity: isize,
) -> UnitDims {
    UnitDims { time, length, mass, electric_current, temperature, amount, luminous_intensity }
}

#[test]
fn dimensionless_is_all_zero_and_default() {
    assert_eq!(UnitDims::dimensionless(), dims(0, 0, 0, 0, 0, 0, 0));
    assert_eq!(UnitDims::default(), UnitDims::dimensionless());
}

#[test]
fn axis_vectors_have_one_exponent_set() {
    assert_eq!(UnitDims::time_axis(), dims(1, 0, 0, 0, 0, 0, 0));
    assert_eq!(UnitDims::length_axis(), dims(0, 1, 0, 0, 0, 0, 0));
    assert_eq!(UnitDims::mass_axis(), dims(0, 0, 1, 0, 0, 0, 0));
    assert_eq!(UnitDims::electric_current_axis(), dims(0, 0, 0, 1, 0, 0, 0));
    assert_eq!(UnitDims::temperature_axis(), dims(0, 0, 0, 0, 1, 0, 0));
    assert_eq!(UnitDims::amount_axis(), dims(0, 0, 0, 0, 0, 1, 0));
    assert_eq!(UnitDims::luminous_intensity_axis(), dims(0, 0, 0, 0, 0, 0, 1));
}

#[test]
fn add_and_sub_are_componentwise() {
    let a = dims(1, -2, 3, 0, 4, -5, 6);
    let b = dims(2, 2, -1, 1, 0, 5, -6);
    assert_eq!(a.add(b), dims(3, 0, 2, 1, 4, 0, 0));
    assert_eq!(a.sub(b), dims(-1, -4, 4, -1, 4, -10, 12));
    assert_eq!(a.add(UnitDims::dimensionless()), a);
}

#[test]
fn add_assign_and_sub_assign_update_in_place() {
    let mut a = dims(1, 0, 2, 0, 0, 0, 0);
    a.add_assign(dims(0, 1, -2, 0, 0, 0, 0));
    assert_eq!(a, dims(1, 1, 0, 0, 0, 0, 0));
    a.sub_assign(dims(1, 1, 0, 0, 0, 0, 0));
    assert_eq!(a, UnitDims::dimensionless());
}

#[test]
fn scalar_mul_scales_every_exponent() {
    let a = dims(1, -1, 2, 0, 3, -3, 1);
    assert_eq!(a.mul(2), dims(2, -2, 4, 0, 6, -6, 2));
    assert_eq!(a.mul(-1), dims(-1, 1, -2, 0, -3, 3, -1));
    let mut b = a;
    b.mul_assign(3);
    assert_eq!(b, dims(3, -3, 6, 0, 9, -9, 3));
}

#[test]
fn scalar_div_rounds_toward_zero() {
    let a = dims(7, -7, 6, 0, 1, -1, 5);
    assert_eq!(a.div(2), dims(3, -3, 3, 0, 0, 0, 2));
    assert_eq!(a.div(-2), dims(-3, 3, -3, 0, 0, 0, -2));
    let mut b = a;
    b.div_assign(2);
    assert_eq!(b, dims(3, -3, 3, 0, 0, 0, 2));
}

#[test]
fn scalar_rem_follows_the_dividend_sign() {
    let a = dims(7, -7, 6, 0, 1, -1, 5);
    assert_eq!(a.rem(2), dims(1, -1, 0, 0, 1, -1, 1));
    assert_eq!(a.rem(-2), dims(1, -1, 0, 0, 1, -1, 1));
    let mut b = a;
    b.rem_assign(3);
    assert_eq!(b, dims(1, -1, 0, 0, 1, -1, 2));
}

#[test]
fn assert_eq_returns_zero_on_equal_vectors() {
    let a = dims(1, 2, 3, 4, 5, 6, 7);
    assert_eq!(a.assert_eq(a), 0);
    assert_eq!(a.convert_for_const(), 0);
}
