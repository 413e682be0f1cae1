//! The quantity wrapper: one numeric storage value bound to an
//! immutable dimension tag.
//!
//! The tag is ordinary data, but no operation here branches on it at
//! run time: every arithmetic operation states its tag discipline as a
//! precondition, so a verified caller that mixes incompatible tags is
//! rejected when the program is checked, never while it runs.

use vstd::prelude::*;

use crate::display_value::DisplayValue;
use crate::display_value::in_i128;
use crate::unit_dims::UnitDims;
use crate::unit_dims::trunc_div;
use crate::units::StandardUnitImpl;
use crate::units::display_repr;
use crate::value::Value;

verus! {

/// A numeric value of storage kind `T` tagged with the physical
/// dimension it measures.  Addition and subtraction demand identical
/// tags; multiplication and division combine the tags by dimension
/// algebra; the tag of an existing quantity never changes.
#[derive(Clone, Copy, Debug)]
pub struct UnitValue<T: Value> {
    value: T,
    dims: UnitDims,
}

impl<T: Value> UnitValue<T> {
    /// The mathematical integer the quantity holds.
    pub closed spec fn as_int(self) -> int {
        self.value.as_int()
    }

    /// The dimension tag the quantity carries.
    pub closed spec fn tag(self) -> UnitDims {
        self.dims
    }

    /// The dimension tag the quantity carries.
    pub fn dims(&self) -> (r: UnitDims)
        ensures
            r == self.tag(),
    {
        self.dims
    }

    /// Wraps a raw storage value under the dimension tag `dims`.
    pub fn new(value: T, dims: UnitDims) -> (r: Self)
        ensures
            r.as_int() == value.as_int(),
            r.tag() == dims,
    {
        UnitValue { value, dims }
    }

    /// Borrows the wrapped storage value.
    pub fn value(&self) -> (r: &T)
        ensures
            r.as_int() == self.as_int(),
    {
        &self.value
    }

    /// Borrows the wrapped storage value mutably.  The caller may
    /// change the magnitude through the borrow; the tag stays put.
    pub fn value_mut(&mut self) -> (r: &mut T)
        ensures
            r.as_int() == old(self).as_int(),
            final(self).as_int() == final(r).as_int(),
            final(self).tag() == old(self).tag(),
    {
        &mut self.value
    }

    /// Consumes the quantity and returns the raw storage value.
    pub fn into_inner(self) -> (r: T)
        ensures
            r.as_int() == self.as_int(),
    {
        self.value
    }

    /// Sum of two quantities.  Only quantities carrying one and the
    /// same tag can be added; the result keeps that tag.
    pub fn add(self, rhs: Self) -> (r: Self)
        requires
            self.tag() == rhs.tag(),
            T::fits(self.as_int() + rhs.as_int()),
        ensures
            r.as_int() == self.as_int() + rhs.as_int(),
            r.tag() == self.tag(),
    {
        UnitValue { value: self.value.val_add(rhs.value), dims: self.dims }
    }

    /// Difference of two quantities carrying one and the same tag.
    pub fn sub(self, rhs: Self) -> (r: Self)
        requires
            self.tag() == rhs.tag(),
            T::fits(self.as_int() - rhs.as_int()),
        ensures
            r.as_int() == self.as_int() - rhs.as_int(),
            r.tag() == self.tag(),
    {
        UnitValue { value: self.value.val_sub(rhs.value), dims: self.dims }
    }

    /// Product of two quantities: the magnitudes multiply and the tags
    /// add, as dimensional analysis prescribes.  Any pair of tags is
    /// permitted.
    pub fn mul(self, rhs: Self) -> (r: Self)
        requires
            self.tag().can_add(rhs.tag()),
            T::fits(self.as_int() * rhs.as_int()),
        ensures
            r.as_int() == self.as_int() * rhs.as_int(),
            r.tag() == self.tag().add_spec(rhs.tag()),
    {
        UnitValue { value: self.value.val_mul(rhs.value), dims: self.dims.add(rhs.dims) }
    }

    /// Quotient of two quantities: the magnitudes divide (rounding
    /// toward zero, as the storage kind does) and the tags subtract.
    pub fn div(self, rhs: Self) -> (r: Self)
        requires
            rhs.as_int() != 0,
            self.tag().can_sub(rhs.tag()),
            T::fits(trunc_div(self.as_int(), rhs.as_int())),
        ensures
            r.as_int() == trunc_div(self.as_int(), rhs.as_int()),
            r.tag() == self.tag().sub_spec(rhs.tag()),
    {
        UnitValue { value: self.value.val_div(rhs.value), dims: self.dims.sub(rhs.dims) }
    }

    /// Product with a raw, untagged scalar: the scalar counts as
    /// dimensionless, so the tag is unchanged.
    pub fn mul_scalar(self, rhs: T) -> (r: Self)
        requires
            T::fits(self.as_int() * rhs.as_int()),
        ensures
            r.as_int() == self.as_int() * rhs.as_int(),
            r.tag() == self.tag(),
    {
        UnitValue { value: self.value.val_mul(rhs), dims: self.dims }
    }

    /// Quotient by a raw, untagged scalar: the tag is unchanged.
    pub fn div_scalar(self, rhs: T) -> (r: Self)
        requires
            rhs.as_int() != 0,
            T::fits(trunc_div(self.as_int(), rhs.as_int())),
        ensures
            r.as_int() == trunc_div(self.as_int(), rhs.as_int()),
            r.tag() == self.tag(),
    {
        UnitValue { value: self.value.val_div(rhs), dims: self.dims }
    }

    /// In-place sum; the same-tag demand as for [`UnitValue::add`].
    pub fn add_assign(&mut self, rhs: Self)
        requires
            old(self).tag() == rhs.tag(),
            T::fits(old(self).as_int() + rhs.as_int()),
        ensures
            final(self).as_int() == old(self).as_int() + rhs.as_int(),
            final(self).tag() == old(self).tag(),
    {
        self.value = self.value.val_add(rhs.value);
    }

    /// In-place difference; the same-tag demand as for
    /// [`UnitValue::sub`].
    pub fn sub_assign(&mut self, rhs: Self)
        requires
            old(self).tag() == rhs.tag(),
            T::fits(old(self).as_int() - rhs.as_int()),
        ensures
            final(self).as_int() == old(self).as_int() - rhs.as_int(),
            final(self).tag() == old(self).tag(),
    {
        self.value = self.value.val_sub(rhs.value);
    }

    /// In-place product with a tagged quantity.  Permitted only when
    /// the right-hand tag is exactly dimensionless: anything else
    /// would silently change this quantity's physical dimension in
    /// place.
    pub fn mul_assign(&mut self, rhs: Self)
        requires
            rhs.tag() == UnitDims::dimensionless(),
            T::fits(old(self).as_int() * rhs.as_int()),
        ensures
            final(self).as_int() == old(self).as_int() * rhs.as_int(),
            final(self).tag() == old(self).tag(),
    {
        self.value = self.value.val_mul(rhs.value);
    }

    /// In-place quotient by a tagged quantity; the right-hand tag must
    /// be exactly dimensionless, as for [`UnitValue::mul_assign`].
    pub fn div_assign(&mut self, rhs: Self)
        requires
            rhs.tag() == UnitDims::dimensionless(),
            rhs.as_int() != 0,
            T::fits(trunc_div(old(self).as_int(), rhs.as_int())),
        ensures
            final(self).as_int() == trunc_div(old(self).as_int(), rhs.as_int()),
            final(self).tag() == old(self).tag(),
    {
        self.value = self.value.val_div(rhs.value);
    }

    /// In-place product with a raw scalar; unrestricted, the scalar is
    /// dimensionless.
    pub fn mul_assign_scalar(&mut self, rhs: T)
        requires
            T::fits(old(self).as_int() * rhs.as_int()),
        ensures
            final(self).as_int() == old(self).as_int() * rhs.as_int(),
            final(self).tag() == old(self).tag(),
    {
        self.value = self.value.val_mul(rhs);
    }

    /// In-place quotient by a raw scalar.
    pub fn div_assign_scalar(&mut self, rhs: T)
        requires
            rhs.as_int() != 0,
            T::fits(trunc_div(old(self).as_int(), rhs.as_int())),
        ensures
            final(self).as_int() == trunc_div(old(self).as_int(), rhs.as_int()),
            final(self).tag() == old(self).tag(),
    {
        self.value = self.value.val_div(rhs);
    }

    /// The quantity expressed as a multiple of the given catalog
    /// unit, whose catalog dimension must agree with the quantity's
    /// tag; the raw magnitude counts base units of that catalog.
    pub fn into_standard_unit<SU: StandardUnitImpl>(self, unit: SU) -> (r: DisplayValue)
        requires
            self.tag() == SU::dims_spec(),
            in_i128(self.as_int()),
            in_i128(self.as_int() * unit.factor_spec().den),
            in_i128(-(self.as_int() * unit.factor_spec().den)),
        ensures
            r == (DisplayValue { num: self.as_int() as i128, den: 1 }).div_spec(
                unit.factor_spec(),
            ),
            r.wf(),
    {
        proof {
            unit.lemma_factor_positive();
        }
        let wide = self.value.widen();
        display_repr(unit, DisplayValue::from_int(wide))
    }
}

/// Adding two quantities that share one dimension tag is commutative:
/// the two orders produce the same quantity.
pub proof fn lemma_add_commutes<T: Value>(
    a: UnitValue<T>,
    b: UnitValue<T>,
    ab: UnitValue<T>,
    ba: UnitValue<T>,
)
    requires
        a.tag() == b.tag(),
        ab.as_int() == a.as_int() + b.as_int(),
        ab.tag() == a.tag(),
        ba.as_int() == b.as_int() + a.as_int(),
        ba.tag() == b.tag(),
    ensures
        ab == ba,
{
    T::lemma_as_int_injective(ab.value, ba.value);
}

/// Adding three quantities that share one dimension tag is
/// associative: grouping does not matter.
pub proof fn lemma_add_associates<T: Value>(
    a: UnitValue<T>,
    b: UnitValue<T>,
    c: UnitValue<T>,
    ab_then_c: UnitValue<T>,
    a_then_bc: UnitValue<T>,
)
    requires
        a.tag() == b.tag(),
        b.tag() == c.tag(),
        ab_then_c.as_int() == (a.as_int() + b.as_int()) + c.as_int(),
        ab_then_c.tag() == a.tag(),
        a_then_bc.as_int() == a.as_int() + (b.as_int() + c.as_int()),
        a_then_bc.tag() == a.tag(),
    ensures
        ab_then_c == a_then_bc,
{
    T::lemma_as_int_injective(ab_then_c.value, a_then_bc.value);
}

/// Multiplying by a quantity and dividing the product by that same
/// quantity recovers the left operand exactly: the tag returns to the
/// left tag and the magnitude to the left magnitude.
pub proof fn lemma_mul_div_recovers<T: Value>(
    a: UnitValue<T>,
    b: UnitValue<T>,
    product: UnitValue<T>,
    quotient: UnitValue<T>,
)
    requires
        b.as_int() != 0,
        a.tag().can_add(b.tag()),
        product.as_int() == a.as_int() * b.as_int(),
        product.tag() == a.tag().add_spec(b.tag()),
        quotient.as_int() == trunc_div(product.as_int(), b.as_int()),
        quotient.tag() == product.tag().sub_spec(b.tag()),
    ensures
        quotient == a,
{
    assert(quotient.tag() == a.tag());
    crate::unit_dims::lemma_trunc_div_of_product(a.as_int(), b.as_int());
    T::lemma_as_int_injective(quotient.value, a.value);
}

} // verus!
