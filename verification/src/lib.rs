//! A units-of-measure library built on dimensional analysis.
//!
//! Every numeric value is tagged with a [`UnitDims`] dimension vector
//! (exponents over the seven physical base dimensions).  Arithmetic on
//! tagged values either demands identical tags (addition, subtraction)
//! or combines the tags algebraically (multiplication adds them,
//! division subtracts them).  A mismatched-tag expression is rejected
//! when the program is verified, never at run time.

pub mod display_value;
pub mod unit_dims;
pub mod unit_value;
pub mod units;
pub mod value;

pub use display_value::DisplayValue;
pub use unit_dims::DimsType;
pub use unit_dims::UnitDims;
pub use unit_value::UnitValue;
pub use units::CompositeUnit;
pub use units::ElectricCurrent;
pub use units::ElectricCurrentUnit;
pub use units::Length;
pub use units::LengthUnit;
pub use units::Mass;
pub use units::MassUnit;
pub use units::StandardUnit;
pub use units::StandardUnitImpl;
pub use units::Time;
pub use units::TimeUnit;
pub use units::Unit;
pub use units::base_repr;
pub use units::display_repr;
pub use value::Sealed;
pub use value::Value;
