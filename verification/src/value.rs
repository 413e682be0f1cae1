//! The closed set of numeric storage kinds a quantity may wrap.

use vstd::prelude::*;
use crate::unit_dims::{trunc_div, lemma_trunc_div_rem};

verus! {

/// Marker that closes the set of storage kinds: only types marked
/// here can implement [`Value`].
pub trait Sealed {

}

/// A permitted numeric storage kind: a fixed-width integer whose
/// arithmetic a quantity wrapper passes through unchanged.  Overflow
/// and division by zero are excluded by precondition, so a verified
/// caller never trips them; nothing else is intercepted.
pub trait Value: Sealed + Sized + Copy {
    /// The mathematical integer this value holds.
    spec fn as_int(self) -> int;

    /// Whether a mathematical integer is representable in this kind.
    spec fn fits(x: int) -> bool;

    /// Every value is representable in its own kind.
    proof fn lemma_fits(self)
        ensures
            Self::fits(self.as_int()),
    ;

    /// Two values of one kind holding the same integer are the same
    /// value.
    proof fn lemma_as_int_injective(a: Self, b: Self)
        requires
            a.as_int() == b.as_int(),
        ensures
            a == b,
    ;

    /// Native addition of the storage kind.
    fn val_add(self, rhs: Self) -> (r: Self)
        requires
            Self::fits(self.as_int() + rhs.as_int()),
        ensures
            r.as_int() == self.as_int() + rhs.as_int(),
    ;

    /// Native subtraction of the storage kind.
    fn val_sub(self, rhs: Self) -> (r: Self)
        requires
            Self::fits(self.as_int() - rhs.as_int()),
        ensures
            r.as_int() == self.as_int() - rhs.as_int(),
    ;

    /// Native multiplication of the storage kind.
    fn val_mul(self, rhs: Self) -> (r: Self)
        requires
            Self::fits(self.as_int() * rhs.as_int()),
        ensures
            r.as_int() == self.as_int() * rhs.as_int(),
    ;

    /// Native division of the storage kind (round toward zero).
    fn val_div(self, rhs: Self) -> (r: Self)
        requires
            rhs.as_int() != 0,
            Self::fits(trunc_div(self.as_int(), rhs.as_int())),
        ensures
            r.as_int() == trunc_div(self.as_int(), rhs.as_int()),
    ;

    /// The held integer as an `i128`, for building a display rational.
    fn widen(self) -> (r: i128)
        requires
            i128::MIN <= self.as_int() <= i128::MAX,
        ensures
            r as int == self.as_int(),
    ;
}

impl Sealed for u8 {

}

impl Value for u8 {
    open spec fn as_int(self) -> int {
        self as int
    }

    open spec fn fits(x: int) -> bool {
        u8::MIN <= x <= u8::MAX
    }

    proof fn lemma_fits(self) {
    }

    proof fn lemma_as_int_injective(a: Self, b: Self) {
    }

    fn val_add(self, rhs: Self) -> (r: Self) {
        self + rhs
    }

    fn val_sub(self, rhs: Self) -> (r: Self) {
        self - rhs
    }

    fn val_mul(self, rhs: Self) -> (r: Self) {
        self * rhs
    }

    fn val_div(self, rhs: Self) -> (r: Self) {
        self / rhs
    }

    fn widen(self) -> (r: i128) {
        self as i128
    }
}

impl Sealed for u16 {

}

impl Value for u16 {
    open spec fn as_int(self) -> int {
        self as int
    }

    open spec fn fits(x: int) -> bool {
        u16::MIN <= x <= u16::MAX
    }

    proof fn lemma_fits(self) {
    }

    proof fn lemma_as_int_injective(a: Self, b: Self) {
    }

    fn val_add(self, rhs: Self) -> (r: Self) {
        self + rhs
    }

    fn val_sub(self, rhs: Self) -> (r: Self) {
        self - rhs
    }

    fn val_mul(self, rhs: Self) -> (r: Self) {
        self * rhs
    }

    fn val_div(self, rhs: Self) -> (r: Self) {
        self / rhs
    }

    fn widen(self) -> (r: i128) {
        self as i128
    }
}

impl Sealed for u32 {

}

impl Value for u32 {
    open spec fn as_int(self) -> int {
        self as int
    }

    open spec fn fits(x: int) -> bool {
        u32::MIN <= x <= u32::MAX
    }

    proof fn lemma_fits(self) {
    }

    proof fn lemma_as_int_injective(a: Self, b: Self) {
    }

    fn val_add(self, rhs: Self) -> (r: Self) {
        self + rhs
    }

    fn val_sub(self, rhs: Self) -> (r: Self) {
        self - rhs
    }

    fn val_mul(self, rhs: Self) -> (r: Self) {
        self * rhs
    }

    fn val_div(self, rhs: Self) -> (r: Self) {
        self / rhs
    }

    fn widen(self) -> (r: i128) {
        self as i128
    }
}

impl Sealed for u64 {

}

impl Value for u64 {
    open spec fn as_int(self) -> int {
        self as int
    }

    open spec fn fits(x: int) -> bool {
        u64::MIN <= x <= u64::MAX
    }

    proof fn lemma_fits(self) {
    }

    proof fn lemma_as_int_injective(a: Self, b: Self) {
    }

    fn val_add(self, rhs: Self) -> (r: Self) {
        self + rhs
    }

    fn val_sub(self, rhs: Self) -> (r: Self) {
        self - rhs
    }

    fn val_mul(self, rhs: Self) -> (r: Self) {
        self * rhs
    }

    fn val_div(self, rhs: Self) -> (r: Self) {
        self / rhs
    }

    fn widen(self) -> (r: i128) {
        self as i128
    }
}

impl Sealed for u128 {

}

impl Value for u128 {
    open spec fn as_int(self) -> int {
        self as int
    }

    open spec fn fits(x: int) -> bool {
        u128::MIN <= x <= u128::MAX
    }

    proof fn lemma_fits(self) {
    }

    proof fn lemma_as_int_injective(a: Self, b: Self) {
    }

    fn val_add(self, rhs: Self) -> (r: Self) {
        self + rhs
    }

    fn val_sub(self, rhs: Self) -> (r: Self) {
        self - rhs
    }

    fn val_mul(self, rhs: Self) -> (r: Self) {
        self * rhs
    }

    fn val_div(self, rhs: Self) -> (r: Self) {
        self / rhs
    }

    fn widen(self) -> (r: i128) {
        self as i128
    }
}

impl Sealed for i8 {

}

impl Value for i8 {
    open spec fn as_int(self) -> int {
        self as int
    }

    open spec fn fits(x: int) -> bool {
        i8::MIN <= x <= i8::MAX
    }

    proof fn lemma_fits(self) {
    }

    proof fn lemma_as_int_injective(a: Self, b: Self) {
    }

    fn val_add(self, rhs: Self) -> (r: Self) {
        self + rhs
    }

    fn val_sub(self, rhs: Self) -> (r: Self) {
        self - rhs
    }

    fn val_mul(self, rhs: Self) -> (r: Self) {
        self * rhs
    }

    fn val_div(self, rhs: Self) -> (r: Self) {
        proof {
            lemma_trunc_div_rem(self as int, rhs as int);
        }
        match self.checked_div(rhs) {
            Some(q) => q,
            None => {
                proof {
                    assert(false);
                }
                vstd::pervasive::unreached()
            },
        }
    }

    fn widen(self) -> (r: i128) {
        self as i128
    }
}

impl Sealed for i16 {

}

impl Value for i16 {
    open spec fn as_int(self) -> int {
        self as int
    }

    open spec fn fits(x: int) -> bool {
        i16::MIN <= x <= i16::MAX
    }

    proof fn lemma_fits(self) {
    }

    proof fn lemma_as_int_injective(a: Self, b: Self) {
    }

    fn val_add(self, rhs: Self) -> (r: Self) {
        self + rhs
    }

    fn val_sub(self, rhs: Self) -> (r: Self) {
        self - rhs
    }

    fn val_mul(self, rhs: Self) -> (r: Self) {
        self * rhs
    }

    fn val_div(self, rhs: Self) -> (r: Self) {
        proof {
            lemma_trunc_div_rem(self as int, rhs as int);
        }
        match self.checked_div(rhs) {
            Some(q) => q,
            None => {
                proof {
                    assert(false);
                }
                vstd::pervasive::unreached()
            },
        }
    }

    fn widen(self) -> (r: i128) {
        self as i128
    }
}

impl Sealed for i32 {

}

impl Value for i32 {
    open spec fn as_int(self) -> int {
        self as int
    }

    open spec fn fits(x: int) -> bool {
        i32::MIN <= x <= i32::MAX
    }

    proof fn lemma_fits(self) {
    }

    proof fn lemma_as_int_injective(a: Self, b: Self) {
    }

    fn val_add(self, rhs: Self) -> (r: Self) {
        self + rhs
    }

    fn val_sub(self, rhs: Self) -> (r: Self) {
        self - rhs
    }

    fn val_mul(self, rhs: Self) -> (r: Self) {
        self * rhs
    }

    fn val_div(self, rhs: Self) -> (r: Self) {
        proof {
            lemma_trunc_div_rem(self as int, rhs as int);
        }
        match self.checked_div(rhs) {
            Some(q) => q,
            None => {
                proof {
                    assert(false);
                }
                vstd::pervasive::unreached()
            },
        }
    }

    fn widen(self) -> (r: i128) {
        self as i128
    }
}

impl Sealed for i64 {

}

impl Value for i64 {
    open spec fn as_int(self) -> int {
        self as int
    }

    open spec fn fits(x: int) -> bool {
        i64::MIN <= x <= i64::MAX
    }

    proof fn lemma_fits(self) {
    }

    proof fn lemma_as_int_injective(a: Self, b: Self) {
    }

    fn val_add(self, rhs: Self) -> (r: Self) {
        self + rhs
    }

    fn val_sub(self, rhs: Self) -> (r: Self) {
        self - rhs
    }

    fn val_mul(self, rhs: Self) -> (r: Self) {
        self * rhs
    }

    fn val_div(self, rhs: Self) -> (r: Self) {
        proof {
            lemma_trunc_div_rem(self as int, rhs as int);
        }
        match self.checked_div(rhs) {
            Some(q) => q,
            None => {
                proof {
                    assert(false);
                }
                vstd::pervasive::unreached()
            },
        }
    }

    fn widen(self) -> (r: i128) {
        self as i128
    }
}

impl Sealed for i128 {

}

impl Value for i128 {
    open spec fn as_int(self) -> int {
        self as int
    }

    open spec fn fits(x: int) -> bool {
        i128::MIN <= x <= i128::MAX
    }

    proof fn lemma_fits(self) {
    }

    proof fn lemma_as_int_injective(a: Self, b: Self) {
    }

    fn val_add(self, rhs: Self) -> (r: Self) {
        self + rhs
    }

    fn val_sub(self, rhs: Self) -> (r: Self) {
        self - rhs
    }

    fn val_mul(self, rhs: Self) -> (r: Self) {
        self * rhs
    }

    fn val_div(self, rhs: Self) -> (r: Self) {
        proof {
            lemma_trunc_div_rem(self as int, rhs as int);
        }
        match self.checked_div(rhs) {
            Some(q) => q,
            None => {
                proof {
                    assert(false);
                }
                vstd::pervasive::unreached()
            },
        }
    }

    fn widen(self) -> (r: i128) {
        self as i128
    }
}

} // verus!
