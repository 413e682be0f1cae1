use unit_algebra::DisplayValue;

#[test]
fn products_and_quotients_are_exact() {
    let a = DisplayValue::new(3, 4);
    let b = DisplayValue::new(5, 6);
    let p = a.mul(b);
    assert_eq!(p.num, 15);
    assert_eq!(p.den, 24);
    let q = a.div(b);
    assert!(q.eq_value(DisplayValue::new(9, 10)));
}

#[test]
fn division_by_a_negative_rational_keeps_the_denominator_positive() {
    let a = DisplayValue::from_int(6);
    let b = DisplayValue::from_int(-3);
    let q = a.div(b);
    assert!(q.den > 0);
    assert!(q.eq_value(DisplayValue::from_int(-2)));
}

#[test]
fn equality_is_of_the_represented_rational() {
    assert!(DisplayValue::new(1, 2).eq_value(DisplayValue::new(3, 6)));
    assert!(!DisplayValue::new(1, 2).eq_value(DisplayValue::new(2, 3)));
    assert!(DisplayValue::new(-7, 2).eq_value(DisplayValue::new(-14, 4)));
}
