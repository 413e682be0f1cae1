use rand::random;

use unit_algebra::UnitDims;
use unit_algebra::UnitValue;

#[test]
fn value_test() {
    let internal_value: i128 = random();
    let mut value = UnitValue::new(
        internal_value,
        UnitDims {
            time: 1,
            length: 2,
            mass: 3,
            electric_current: 4,
            temperature: 5,
            amount: 6,
            luminous_intensity: 7,
        },
    );
    assert_eq!(internal_value, *value.value());
    assert_eq!(internal_value, *value.value_mut());
    assert_eq!(internal_value, value.into_inner());
}
