use unit_algebra::DisplayValue;
use unit_algebra::Time;
use unit_algebra::UnitDims;
use unit_algebra::UnitValue;

#[test]
fn fresh_quantity_observes_its_value_unchanged() {
    let x: i64 = -42;
    let mut q = UnitValue::new(x, UnitDims::mass_axis());
    assert_eq!(*q.value(), x);
    assert_eq!(*q.value_mut(), x);
    assert_eq!(q.dims(), UnitDims::mass_axis());
    assert_eq!(q.into_inner(), x);
}

#[test]
fn value_mut_changes_the_magnitude_but_not_the_tag() {
    let mut q = UnitValue::new(10u32, UnitDims::time_axis());
    *q.value_mut() = 25;
    assert_eq!(*q.value(), 25);
    assert_eq!(q.dims(), UnitDims::time_axis());
}

#[test]
fn addition_is_commutative_and_associative() {
    let d = UnitDims::length_axis();
    let a = UnitValue::new(17i32, d);
    let b = UnitValue::new(25i32, d);
    let c = UnitValue::new(-8i32, d);
    assert_eq!(a.add(b).into_inner(), b.add(a).into_inner());
    assert_eq!(a.add(b).add(c).into_inner(), a.add(b.add(c)).into_inner());
    assert_eq!(a.add(b).dims(), d);
}

#[test]
fn subtraction_keeps_the_shared_tag() {
    let d = UnitDims::time_axis();
    let a = UnitValue::new(100i64, d);
    let b = UnitValue::new(33i64, d);
    let r = a.sub(b);
    assert_eq!(r.into_inner(), 67);
    assert_eq!(a.sub(b).dims(), d);
}

#[test]
fn multiplication_adds_tags_and_division_subtracts_them() {
    let da = UnitDims::length_axis();
    let db = UnitDims::time_axis();
    let a = UnitValue::new(84i64, da);
    let b = UnitValue::new(2i64, db);
    let p = a.mul(b);
    assert_eq!(p.dims(), da.add(db));
    assert_eq!(*p.value(), 168);
    let q = a.div(b);
    assert_eq!(q.dims(), da.sub(db));
    assert_eq!(*q.value(), 42);
}

#[test]
fn multiplying_then_dividing_by_the_same_quantity_recovers_the_left_operand() {
    let da = UnitDims::mass_axis();
    let db = UnitDims::time_axis();
    let a = UnitValue::new(-55i32, da);
    let b = UnitValue::new(7i32, db);
    let back = a.mul(b).div(b);
    assert_eq!(back.dims(), da);
    assert_eq!(back.into_inner(), -55);
}

#[test]
fn scalar_multiplication_and_division_keep_the_tag() {
    let d = UnitDims::electric_current_axis();
    let a = UnitValue::new(21u64, d);
    let p = a.mul_scalar(4);
    assert_eq!(*p.value(), 84);
    assert_eq!(p.dims(), d);
    let q = p.div_scalar(2);
    assert_eq!(*q.value(), 42);
    assert_eq!(q.dims(), d);
}

#[test]
fn compound_assignment_with_shared_tag() {
    let d = UnitDims::time_axis();
    let mut a = UnitValue::new(10i64, d);
    a.add_assign(UnitValue::new(5i64, d));
    assert_eq!(*a.value(), 15);
    a.sub_assign(UnitValue::new(20i64, d));
    assert_eq!(*a.value(), -5);
    assert_eq!(a.dims(), d);
}

#[test]
fn compound_scaling_by_dimensionless_quantities_and_raw_scalars() {
    let d = UnitDims::length_axis();
    let mut a = UnitValue::new(6i64, d);
    a.mul_assign(UnitValue::new(7i64, UnitDims::dimensionless()));
    assert_eq!(*a.value(), 42);
    a.div_assign(UnitValue::new(2i64, UnitDims::dimensionless()));
    assert_eq!(*a.value(), 21);
    a.mul_assign_scalar(-2);
    assert_eq!(*a.value(), -42);
    a.div_assign_scalar(3);
    assert_eq!(*a.value(), -14);
    assert_eq!(a.dims(), d);
}

#[test]
fn quantity_division_rounds_toward_zero() {
    let d = UnitDims::time_axis();
    let a = UnitValue::new(-7i32, d);
    let b = UnitValue::new(2i32, d);
    assert_eq!(a.div(b).into_inner(), -3);
    assert_eq!(a.div_scalar(-2).into_inner(), 3);
}

#[test]
fn into_standard_unit_expresses_base_magnitudes_in_the_chosen_unit() {
    let two_hours_in_nanoseconds: i64 = 7_200_000_000_000;
    let q = UnitValue::new(two_hours_in_nanoseconds, UnitDims::time_axis());
    let shown = q.into_standard_unit(Time::Hour);
    assert!(shown.eq_value(DisplayValue::from_int(2)));
    let q = UnitValue::new(1_500_000_000i64, UnitDims::time_axis());
    let shown = q.into_standard_unit(Time::Second);
    assert!(shown.eq_value(DisplayValue::new(3, 2)));
}
