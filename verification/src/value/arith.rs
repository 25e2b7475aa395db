//! Arithmetic on values: `+`, `-`, `*` and `/` between two values, and
//! between a value and a primitive unsigned integer. Subtraction requires
//! the left operand to be at least the right one, and division a non-zero
//! divisor (the inputs on which the operations panic).
use crate::value::bigint::{big_add, big_div, big_mul, big_sub};
use crate::value::unsigned_integer::UnsignedInteger;
use core::ops::{Add, Div, Mul, Sub};
use vstd::prelude::*;
use vstd::std_specs::ops::{AddSpecImpl, DivSpecImpl, MulSpecImpl, SubSpecImpl};

verus! {

impl Add for UnsignedInteger {
    type Output = Self;

    /// The sum.
    fn add(self, rhs: Self) -> (r: Self)
        ensures
            r@ == self@ + rhs@,
    {
        UnsignedInteger::from_canonical_le(big_add(self.le_bytes().as_slice(), rhs.le_bytes().as_slice()))
    }
}

impl AddSpecImpl for UnsignedInteger {
    /// The result is stated by `add`'s own `ensures`, over the value.
    open spec fn obeys_add_spec() -> bool {
        false
    }

    open spec fn add_req(self, rhs: Self) -> bool {
        true
    }

    open spec fn add_spec(self, rhs: Self) -> Self {
        choose|r: Self| r@ == self@ + rhs@
    }
}

impl Add<u8> for UnsignedInteger {
    type Output = Self;

    /// The sum.
    fn add(self, rhs: u8) -> (r: Self)
        ensures
            r@ == self@ + rhs,
    {
        self + UnsignedInteger::from_u64(rhs as u64)
    }
}

impl AddSpecImpl<u8> for UnsignedInteger {
    /// The result is stated by `add`'s own `ensures`, over the value.
    open spec fn obeys_add_spec() -> bool {
        false
    }

    open spec fn add_req(self, rhs: u8) -> bool {
        true
    }

    open spec fn add_spec(self, rhs: u8) -> Self {
        choose|r: Self| r@ == self@ + rhs
    }
}

impl Add<u16> for UnsignedInteger {
    type Output = Self;

    /// The sum.
    fn add(self, rhs: u16) -> (r: Self)
        ensures
            r@ == self@ + rhs,
    {
        self + UnsignedInteger::from_u64(rhs as u64)
    }
}

impl AddSpecImpl<u16> for UnsignedInteger {
    /// The result is stated by `add`'s own `ensures`, over the value.
    open spec fn obeys_add_spec() -> bool {
        false
    }

    open spec fn add_req(self, rhs: u16) -> bool {
        true
    }

    open spec fn add_spec(self, rhs: u16) -> Self {
        choose|r: Self| r@ == self@ + rhs
    }
}

impl Add<u32> for UnsignedInteger {
    type Output = Self;

    /// The sum.
    fn add(self, rhs: u32) -> (r: Self)
        ensures
            r@ == self@ + rhs,
    {
        self + UnsignedInteger::from_u64(rhs as u64)
    }
}

impl AddSpecImpl<u32> for UnsignedInteger {
    /// The result is stated by `add`'s own `ensures`, over the value.
    open spec fn obeys_add_spec() -> bool {
        false
    }

    open spec fn add_req(self, rhs: u32) -> bool {
        true
    }

    open spec fn add_spec(self, rhs: u32) -> Self {
        choose|r: Self| r@ == self@ + rhs
    }
}

impl Add<u64> for UnsignedInteger {
    type Output = Self;

    /// The sum.
    fn add(self, rhs: u64) -> (r: Self)
        ensures
            r@ == self@ + rhs,
    {
        self + UnsignedInteger::from_u64(rhs as u64)
    }
}

impl AddSpecImpl<u64> for UnsignedInteger {
    /// The result is stated by `add`'s own `ensures`, over the value.
    open spec fn obeys_add_spec() -> bool {
        false
    }

    open spec fn add_req(self, rhs: u64) -> bool {
        true
    }

    open spec fn add_spec(self, rhs: u64) -> Self {
        choose|r: Self| r@ == self@ + rhs
    }
}

impl Add<usize> for UnsignedInteger {
    type Output = Self;

    /// The sum.
    fn add(self, rhs: usize) -> (r: Self)
        ensures
            r@ == self@ + rhs,
    {
        self + UnsignedInteger::from_u64(rhs as u64)
    }
}

impl AddSpecImpl<usize> for UnsignedInteger {
    /// The result is stated by `add`'s own `ensures`, over the value.
    open spec fn obeys_add_spec() -> bool {
        false
    }

    open spec fn add_req(self, rhs: usize) -> bool {
        true
    }

    open spec fn add_spec(self, rhs: usize) -> Self {
        choose|r: Self| r@ == self@ + rhs
    }
}

impl Sub for UnsignedInteger {
    type Output = Self;

    /// The difference; `rhs` must not exceed `self`.
    fn sub(self, rhs: Self) -> (r: Self)
        ensures
            r@ == self@ - rhs@,
    {
        UnsignedInteger::from_canonical_le(big_sub(self.le_bytes().as_slice(), rhs.le_bytes().as_slice()))
    }
}

impl SubSpecImpl for UnsignedInteger {
    /// The result is stated by `sub`'s own `ensures`, over the value.
    open spec fn obeys_sub_spec() -> bool {
        false
    }

    open spec fn sub_req(self, rhs: Self) -> bool {
        self@ >= rhs@
    }

    open spec fn sub_spec(self, rhs: Self) -> Self {
        choose|r: Self| r@ == self@ - rhs@
    }
}

impl Sub<u8> for UnsignedInteger {
    type Output = Self;

    /// The difference; `rhs` must not exceed `self`.
    fn sub(self, rhs: u8) -> (r: Self)
        ensures
            r@ == self@ - rhs,
    {
        self - UnsignedInteger::from_u64(rhs as u64)
    }
}

impl SubSpecImpl<u8> for UnsignedInteger {
    /// The result is stated by `sub`'s own `ensures`, over the value.
    open spec fn obeys_sub_spec() -> bool {
        false
    }

    open spec fn sub_req(self, rhs: u8) -> bool {
        self@ >= rhs
    }

    open spec fn sub_spec(self, rhs: u8) -> Self {
        choose|r: Self| r@ == self@ - rhs
    }
}

impl Sub<u16> for UnsignedInteger {
    type Output = Self;

    /// The difference; `rhs` must not exceed `self`.
    fn sub(self, rhs: u16) -> (r: Self)
        ensures
            r@ == self@ - rhs,
    {
        self - UnsignedInteger::from_u64(rhs as u64)
    }
}

impl SubSpecImpl<u16> for UnsignedInteger {
    /// The result is stated by `sub`'s own `ensures`, over the value.
    open spec fn obeys_sub_spec() -> bool {
        false
    }

    open spec fn sub_req(self, rhs: u16) -> bool {
        self@ >= rhs
    }

    open spec fn sub_spec(self, rhs: u16) -> Self {
        choose|r: Self| r@ == self@ - rhs
    }
}

impl Sub<u32> for UnsignedInteger {
    type Output = Self;

    /// The difference; `rhs` must not exceed `self`.
    fn sub(self, rhs: u32) -> (r: Self)
        ensures
            r@ == self@ - rhs,
    {
        self - UnsignedInteger::from_u64(rhs as u64)
    }
}

impl SubSpecImpl<u32> for UnsignedInteger {
    /// The result is stated by `sub`'s own `ensures`, over the value.
    open spec fn obeys_sub_spec() -> bool {
        false
    }

    open spec fn sub_req(self, rhs: u32) -> bool {
        self@ >= rhs
    }

    open spec fn sub_spec(self, rhs: u32) -> Self {
        choose|r: Self| r@ == self@ - rhs
    }
}

impl Sub<u64> for UnsignedInteger {
    type Output = Self;

    /// The difference; `rhs` must not exceed `self`.
    fn sub(self, rhs: u64) -> (r: Self)
        ensures
            r@ == self@ - rhs,
    {
        self - UnsignedInteger::from_u64(rhs as u64)
    }
}

impl SubSpecImpl<u64> for UnsignedInteger {
    /// The result is stated by `sub`'s own `ensures`, over the value.
    open spec fn obeys_sub_spec() -> bool {
        false
    }

    open spec fn sub_req(self, rhs: u64) -> bool {
        self@ >= rhs
    }

    open spec fn sub_spec(self, rhs: u64) -> Self {
        choose|r: Self| r@ == self@ - rhs
    }
}

impl Sub<usize> for UnsignedInteger {
    type Output = Self;

    /// The difference; `rhs` must not exceed `self`.
    fn sub(self, rhs: usize) -> (r: Self)
        ensures
            r@ == self@ - rhs,
    {
        self - UnsignedInteger::from_u64(rhs as u64)
    }
}

impl SubSpecImpl<usize> for UnsignedInteger {
    /// The result is stated by `sub`'s own `ensures`, over the value.
    open spec fn obeys_sub_spec() -> bool {
        false
    }

    open spec fn sub_req(self, rhs: usize) -> bool {
        self@ >= rhs
    }

    open spec fn sub_spec(self, rhs: usize) -> Self {
        choose|r: Self| r@ == self@ - rhs
    }
}

impl Mul for UnsignedInteger {
    type Output = Self;

    /// The product.
    fn mul(self, rhs: Self) -> (r: Self)
        ensures
            r@ == self@ * rhs@,
    {
        UnsignedInteger::from_canonical_le(big_mul(self.le_bytes().as_slice(), rhs.le_bytes().as_slice()))
    }
}

impl MulSpecImpl for UnsignedInteger {
    /// The result is stated by `mul`'s own `ensures`, over the value.
    open spec fn obeys_mul_spec() -> bool {
        false
    }

    open spec fn mul_req(self, rhs: Self) -> bool {
        true
    }

    open spec fn mul_spec(self, rhs: Self) -> Self {
        choose|r: Self| r@ == self@ * rhs@
    }
}

impl Mul<u8> for UnsignedInteger {
    type Output = Self;

    /// The product.
    fn mul(self, rhs: u8) -> (r: Self)
        ensures
            r@ == self@ * rhs,
    {
        self * UnsignedInteger::from_u64(rhs as u64)
    }
}

impl MulSpecImpl<u8> for UnsignedInteger {
    /// The result is stated by `mul`'s own `ensures`, over the value.
    open spec fn obeys_mul_spec() -> bool {
        false
    }

    open spec fn mul_req(self, rhs: u8) -> bool {
        true
    }

    open spec fn mul_spec(self, rhs: u8) -> Self {
        choose|r: Self| r@ == self@ * rhs
    }
}

impl Mul<u16> for UnsignedInteger {
    type Output = Self;

    /// The product.
    fn mul(self, rhs: u16) -> (r: Self)
        ensures
            r@ == self@ * rhs,
    {
        self * UnsignedInteger::from_u64(rhs as u64)
    }
}

impl MulSpecImpl<u16> for UnsignedInteger {
    /// The result is stated by `mul`'s own `ensures`, over the value.
    open spec fn obeys_mul_spec() -> bool {
        false
    }

    open spec fn mul_req(self, rhs: u16) -> bool {
        true
    }

    open spec fn mul_spec(self, rhs: u16) -> Self {
        choose|r: Self| r@ == self@ * rhs
    }
}

impl Mul<u32> for UnsignedInteger {
    type Output = Self;

    /// The product.
    fn mul(self, rhs: u32) -> (r: Self)
        ensures
            r@ == self@ * rhs,
    {
        self * UnsignedInteger::from_u64(rhs as u64)
    }
}

impl MulSpecImpl<u32> for UnsignedInteger {
    /// The result is stated by `mul`'s own `ensures`, over the value.
    open spec fn obeys_mul_spec() -> bool {
        false
    }

    open spec fn mul_req(self, rhs: u32) -> bool {
        true
    }

    open spec fn mul_spec(self, rhs: u32) -> Self {
        choose|r: Self| r@ == self@ * rhs
    }
}

impl Mul<u64> for UnsignedInteger {
    type Output = Self;

    /// The product.
    fn mul(self, rhs: u64) -> (r: Self)
        ensures
            r@ == self@ * rhs,
    {
        self * UnsignedInteger::from_u64(rhs as u64)
    }
}

impl MulSpecImpl<u64> for UnsignedInteger {
    /// The result is stated by `mul`'s own `ensures`, over the value.
    open spec fn obeys_mul_spec() -> bool {
        false
    }

    open spec fn mul_req(self, rhs: u64) -> bool {
        true
    }

    open spec fn mul_spec(self, rhs: u64) -> Self {
        choose|r: Self| r@ == self@ * rhs
    }
}

impl Mul<usize> for UnsignedInteger {
    type Output = Self;

    /// The product.
    fn mul(self, rhs: usize) -> (r: Self)
        ensures
            r@ == self@ * rhs,
    {
        self * UnsignedInteger::from_u64(rhs as u64)
    }
}

impl MulSpecImpl<usize> for UnsignedInteger {
    /// The result is stated by `mul`'s own `ensures`, over the value.
    open spec fn obeys_mul_spec() -> bool {
        false
    }

    open spec fn mul_req(self, rhs: usize) -> bool {
        true
    }

    open spec fn mul_spec(self, rhs: usize) -> Self {
        choose|r: Self| r@ == self@ * rhs
    }
}

impl Div for UnsignedInteger {
    type Output = Self;

    /// The quotient, rounded down; `rhs` must not be zero.
    fn div(self, rhs: Self) -> (r: Self)
        ensures
            r@ == self@ / rhs@,
    {
        UnsignedInteger::from_canonical_le(big_div(self.le_bytes().as_slice(), rhs.le_bytes().as_slice()))
    }
}

impl DivSpecImpl for UnsignedInteger {
    /// The result is stated by `div`'s own `ensures`, over the value.
    open spec fn obeys_div_spec() -> bool {
        false
    }

    open spec fn div_req(self, rhs: Self) -> bool {
        rhs@ != 0
    }

    open spec fn div_spec(self, rhs: Self) -> Self {
        choose|r: Self| r@ == self@ / rhs@
    }
}

impl Div<u8> for UnsignedInteger {
    type Output = Self;

    /// The quotient, rounded down; `rhs` must not be zero.
    fn div(self, rhs: u8) -> (r: Self)
        ensures
            r@ == self@ / (rhs as nat),
    {
        self / UnsignedInteger::from_u64(rhs as u64)
    }
}

impl DivSpecImpl<u8> for UnsignedInteger {
    /// The result is stated by `div`'s own `ensures`, over the value.
    open spec fn obeys_div_spec() -> bool {
        false
    }

    open spec fn div_req(self, rhs: u8) -> bool {
        rhs != 0
    }

    open spec fn div_spec(self, rhs: u8) -> Self {
        choose|r: Self| r@ == self@ / (rhs as nat)
    }
}

impl Div<u16> for UnsignedInteger {
    type Output = Self;

    /// The quotient, rounded down; `rhs` must not be zero.
    fn div(self, rhs: u16) -> (r: Self)
        ensures
            r@ == self@ / (rhs as nat),
    {
        self / UnsignedInteger::from_u64(rhs as u64)
    }
}

impl DivSpecImpl<u16> for UnsignedInteger {
    /// The result is stated by `div`'s own `ensures`, over the value.
    open spec fn obeys_div_spec() -> bool {
        false
    }

    open spec fn div_req(self, rhs: u16) -> bool {
        rhs != 0
    }

    open spec fn div_spec(self, rhs: u16) -> Self {
        choose|r: Self| r@ == self@ / (rhs as nat)
    }
}

impl Div<u32> for UnsignedInteger {
    type Output = Self;

    /// The quotient, rounded down; `rhs` must not be zero.
    fn div(self, rhs: u32) -> (r: Self)
        ensures
            r@ == self@ / (rhs as nat),
    {
        self / UnsignedInteger::from_u64(rhs as u64)
    }
}

impl DivSpecImpl<u32> for UnsignedInteger {
    /// The result is stated by `div`'s own `ensures`, over the value.
    open spec fn obeys_div_spec() -> bool {
        false
    }

    open spec fn div_req(self, rhs: u32) -> bool {
        rhs != 0
    }

    open spec fn div_spec(self, rhs: u32) -> Self {
        choose|r: Self| r@ == self@ / (rhs as nat)
    }
}

impl Div<u64> for UnsignedInteger {
    type Output = Self;

    /// The quotient, rounded down; `rhs` must not be zero.
    fn div(self, rhs: u64) -> (r: Self)
        ensures
            r@ == self@ / (rhs as nat),
    {
        self / UnsignedInteger::from_u64(rhs as u64)
    }
}

impl DivSpecImpl<u64> for UnsignedInteger {
    /// The result is stated by `div`'s own `ensures`, over the value.
    open spec fn obeys_div_spec() -> bool {
        false
    }

    open spec fn div_req(self, rhs: u64) -> bool {
        rhs != 0
    }

    open spec fn div_spec(self, rhs: u64) -> Self {
        choose|r: Self| r@ == self@ / (rhs as nat)
    }
}

impl Div<usize> for UnsignedInteger {
    type Output = Self;

    /// The quotient, rounded down; `rhs` must not be zero.
    fn div(self, rhs: usize) -> (r: Self)
        ensures
            r@ == self@ / (rhs as nat),
    {
        self / UnsignedInteger::from_u64(rhs as u64)
    }
}

impl DivSpecImpl<usize> for UnsignedInteger {
    /// The result is stated by `div`'s own `ensures`, over the value.
    open spec fn obeys_div_spec() -> bool {
        false
    }

    open spec fn div_req(self, rhs: usize) -> bool {
        rhs != 0
    }

    open spec fn div_spec(self, rhs: usize) -> Self {
        choose|r: Self| r@ == self@ / (rhs as nat)
    }
}

} // verus!
