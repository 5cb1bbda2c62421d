use vstd::prelude::*;

use crate::color::HexColor;
use crate::ops::{
    lemma_scalar_add_commutes, lemma_scalar_mul_commutes, scalar_minus, scalar_minus_color,
    scalar_plus, scalar_times,
};

verus! {

// The forms with the scalar on the left. Coherence rules allow no impl that is
// generic over the left operand here, so each integer type has its own; the
// forms with the color on the left, in `ops`, are generic over `Scalar`.

impl core::ops::Add<HexColor> for u8 {
    type Output = HexColor;

    fn add(self, other: HexColor) -> (c: HexColor) {
        proof {
            lemma_scalar_add_commutes(other, self as int);
        }
        other + self
    }
}

impl vstd::std_specs::ops::AddSpecImpl<HexColor> for u8 {
    open spec fn obeys_add_spec() -> bool {
        true
    }

    open spec fn add_req(self, other: HexColor) -> bool {
        true
    }

    open spec fn add_spec(self, other: HexColor) -> HexColor {
        scalar_plus(self as int, other)
    }
}

impl<'a> core::ops::Add<&'a HexColor> for u8 {
    type Output = HexColor;

    fn add(self, other: &'a HexColor) -> (c: HexColor) {
        self + *other
    }
}

impl<'a> vstd::std_specs::ops::AddSpecImpl<&'a HexColor> for u8 {
    open spec fn obeys_add_spec() -> bool {
        true
    }

    open spec fn add_req(self, other: &'a HexColor) -> bool {
        true
    }

    open spec fn add_spec(self, other: &'a HexColor) -> HexColor {
        scalar_plus(self as int, *other)
    }
}

impl<'a> core::ops::Add<HexColor> for &'a u8 {
    type Output = HexColor;

    fn add(self, other: HexColor) -> (c: HexColor) {
        *self + other
    }
}

impl<'a> vstd::std_specs::ops::AddSpecImpl<HexColor> for &'a u8 {
    open spec fn obeys_add_spec() -> bool {
        true
    }

    open spec fn add_req(self, other: HexColor) -> bool {
        true
    }

    open spec fn add_spec(self, other: HexColor) -> HexColor {
        scalar_plus(*self as int, other)
    }
}

impl<'a, 'b> core::ops::Add<&'b HexColor> for &'a u8 {
    type Output = HexColor;

    fn add(self, other: &'b HexColor) -> (c: HexColor) {
        *self + *other
    }
}

impl<'a, 'b> vstd::std_specs::ops::AddSpecImpl<&'b HexColor> for &'a u8 {
    open spec fn obeys_add_spec() -> bool {
        true
    }

    open spec fn add_req(self, other: &'b HexColor) -> bool {
        true
    }

    open spec fn add_spec(self, other: &'b HexColor) -> HexColor {
        scalar_plus(*self as int, *other)
    }
}

impl core::ops::Sub<HexColor> for u8 {
    type Output = HexColor;

    fn sub(self, other: HexColor) -> (c: HexColor) {
        scalar_minus_color(self, other)
    }
}

impl vstd::std_specs::ops::SubSpecImpl<HexColor> for u8 {
    open spec fn obeys_sub_spec() -> bool {
        true
    }

    open spec fn sub_req(self, other: HexColor) -> bool {
        true
    }

    open spec fn sub_spec(self, other: HexColor) -> HexColor {
        scalar_minus(self as int, other)
    }
}

impl<'a> core::ops::Sub<&'a HexColor> for u8 {
    type Output = HexColor;

    fn sub(self, other: &'a HexColor) -> (c: HexColor) {
        self - *other
    }
}

impl<'a> vstd::std_specs::ops::SubSpecImpl<&'a HexColor> for u8 {
    open spec fn obeys_sub_spec() -> bool {
        true
    }

    open spec fn sub_req(self, other: &'a HexColor) -> bool {
        true
    }

    open spec fn sub_spec(self, other: &'a HexColor) -> HexColor {
        scalar_minus(self as int, *other)
    }
}

impl<'a> core::ops::Sub<HexColor> for &'a u8 {
    type Output = HexColor;

    fn sub(self, other: HexColor) -> (c: HexColor) {
        *self - other
    }
}

impl<'a> vstd::std_specs::ops::SubSpecImpl<HexColor> for &'a u8 {
    open spec fn obeys_sub_spec() -> bool {
        true
    }

    open spec fn sub_req(self, other: HexColor) -> bool {
        true
    }

    open spec fn sub_spec(self, other: HexColor) -> HexColor {
        scalar_minus(*self as int, other)
    }
}

impl<'a, 'b> core::ops::Sub<&'b HexColor> for &'a u8 {
    type Output = HexColor;

    fn sub(self, other: &'b HexColor) -> (c: HexColor) {
        *self - *other
    }
}

impl<'a, 'b> vstd::std_specs::ops::SubSpecImpl<&'b HexColor> for &'a u8 {
    open spec fn obeys_sub_spec() -> bool {
        true
    }

    open spec fn sub_req(self, other: &'b HexColor) -> bool {
        true
    }

    open spec fn sub_spec(self, other: &'b HexColor) -> HexColor {
        scalar_minus(*self as int, *other)
    }
}

impl core::ops::Mul<HexColor> for u8 {
    type Output = HexColor;

    fn mul(self, other: HexColor) -> (c: HexColor) {
        proof {
            lemma_scalar_mul_commutes(other, self as int);
        }
        other * self
    }
}

impl vstd::std_specs::ops::MulSpecImpl<HexColor> for u8 {
    open spec fn obeys_mul_spec() -> bool {
        true
    }

    open spec fn mul_req(self, other: HexColor) -> bool {
        true
    }

    open spec fn mul_spec(self, other: HexColor) -> HexColor {
        scalar_times(self as int, other)
    }
}

impl<'a> core::ops::Mul<&'a HexColor> for u8 {
    type Output = HexColor;

    fn mul(self, other: &'a HexColor) -> (c: HexColor) {
        self * *other
    }
}

impl<'a> vstd::std_specs::ops::MulSpecImpl<&'a HexColor> for u8 {
    open spec fn obeys_mul_spec() -> bool {
        true
    }

    open spec fn mul_req(self, other: &'a HexColor) -> bool {
        true
    }

    open spec fn mul_spec(self, other: &'a HexColor) -> HexColor {
        scalar_times(self as int, *other)
    }
}

impl<'a> core::ops::Mul<HexColor> for &'a u8 {
    type Output = HexColor;

    fn mul(self, other: HexColor) -> (c: HexColor) {
        *self * other
    }
}

impl<'a> vstd::std_specs::ops::MulSpecImpl<HexColor> for &'a u8 {
    open spec fn obeys_mul_spec() -> bool {
        true
    }

    open spec fn mul_req(self, other: HexColor) -> bool {
        true
    }

    open spec fn mul_spec(self, other: HexColor) -> HexColor {
        scalar_times(*self as int, other)
    }
}

impl<'a, 'b> core::ops::Mul<&'b HexColor> for &'a u8 {
    type Output = HexColor;

    fn mul(self, other: &'b HexColor) -> (c: HexColor) {
        *self * *other
    }
}

impl<'a, 'b> vstd::std_specs::ops::MulSpecImpl<&'b HexColor> for &'a u8 {
    open spec fn obeys_mul_spec() -> bool {
        true
    }

    open spec fn mul_req(self, other: &'b HexColor) -> bool {
        true
    }

    open spec fn mul_spec(self, other: &'b HexColor) -> HexColor {
        scalar_times(*self as int, *other)
    }
}

impl core::ops::Add<HexColor> for u16 {
    type Output = HexColor;

    fn add(self, other: HexColor) -> (c: HexColor) {
        proof {
            lemma_scalar_add_commutes(other, self as int);
        }
        other + self
    }
}

impl vstd::std_specs::ops::AddSpecImpl<HexColor> for u16 {
    open spec fn obeys_add_spec() -> bool {
        true
    }

    open spec fn add_req(self, other: HexColor) -> bool {
        true
    }

    open spec fn add_spec(self, other: HexColor) -> HexColor {
        scalar_plus(self as int, other)
    }
}

impl<'a> core::ops::Add<&'a HexColor> for u16 {
    type Output = HexColor;

    fn add(self, other: &'a HexColor) -> (c: HexColor) {
        self + *other
    }
}

impl<'a> vstd::std_specs::ops::AddSpecImpl<&'a HexColor> for u16 {
    open spec fn obeys_add_spec() -> bool {
        true
    }

    open spec fn add_req(self, other: &'a HexColor) -> bool {
        true
    }

    open spec fn add_spec(self, other: &'a HexColor) -> HexColor {
        scalar_plus(self as int, *other)
    }
}

impl<'a> core::ops::Add<HexColor> for &'a u16 {
    type Output = HexColor;

    fn add(self, other: HexColor) -> (c: HexColor) {
        *self + other
    }
}

impl<'a> vstd::std_specs::ops::AddSpecImpl<HexColor> for &'a u16 {
    open spec fn obeys_add_spec() -> bool {
        true
    }

    open spec fn add_req(self, other: HexColor) -> bool {
        true
    }

    open spec fn add_spec(self, other: HexColor) -> HexColor {
        scalar_plus(*self as int, other)
    }
}

impl<'a, 'b> core::ops::Add<&'b HexColor> for &'a u16 {
    type Output = HexColor;

    fn add(self, other: &'b HexColor) -> (c: HexColor) {
        *self + *other
    }
}

impl<'a, 'b> vstd::std_specs::ops::AddSpecImpl<&'b HexColor> for &'a u16 {
    open spec fn obeys_add_spec() -> bool {
        true
    }

    open spec fn add_req(self, other: &'b HexColor) -> bool {
        true
    }

    open spec fn add_spec(self, other: &'b HexColor) -> HexColor {
        scalar_plus(*self as int, *other)
    }
}

impl core::ops::Sub<HexColor> for u16 {
    type Output = HexColor;

    fn sub(self, other: HexColor) -> (c: HexColor) {
        scalar_minus_color(self, other)
    }
}

impl vstd::std_specs::ops::SubSpecImpl<HexColor> for u16 {
    open spec fn obeys_sub_spec() -> bool {
        true
    }

    open spec fn sub_req(self, other: HexColor) -> bool {
        true
    }

    open spec fn sub_spec(self, other: HexColor) -> HexColor {
        scalar_minus(self as int, other)
    }
}

impl<'a> core::ops::Sub<&'a HexColor> for u16 {
    type Output = HexColor;

    fn sub(self, other: &'a HexColor) -> (c: HexColor) {
        self - *other
    }
}

impl<'a> vstd::std_specs::ops::SubSpecImpl<&'a HexColor> for u16 {
    open spec fn obeys_sub_spec() -> bool {
        true
    }

    open spec fn sub_req(self, other: &'a HexColor) -> bool {
        true
    }

    open spec fn sub_spec(self, other: &'a HexColor) -> HexColor {
        scalar_minus(self as int, *other)
    }
}

impl<'a> core::ops::Sub<HexColor> for &'a u16 {
    type Output = HexColor;

    fn sub(self, other: HexColor) -> (c: HexColor) {
        *self - other
    }
}

impl<'a> vstd::std_specs::ops::SubSpecImpl<HexColor> for &'a u16 {
    open spec fn obeys_sub_spec() -> bool {
        true
    }

    open spec fn sub_req(self, other: HexColor) -> bool {
        true
    }

    open spec fn sub_spec(self, other: HexColor) -> HexColor {
        scalar_minus(*self as int, other)
    }
}

impl<'a, 'b> core::ops::Sub<&'b HexColor> for &'a u16 {
    type Output = HexColor;

    fn sub(self, other: &'b HexColor) -> (c: HexColor) {
        *self - *other
    }
}

impl<'a, 'b> vstd::std_specs::ops::SubSpecImpl<&'b HexColor> for &'a u16 {
    open spec fn obeys_sub_spec() -> bool {
        true
    }

    open spec fn sub_req(self, other: &'b HexColor) -> bool {
        true
    }

    open spec fn sub_spec(self, other: &'b HexColor) -> HexColor {
        scalar_minus(*self as int, *other)
    }
}

impl core::ops::Mul<HexColor> for u16 {
    type Output = HexColor;

    fn mul(self, other: HexColor) -> (c: HexColor) {
        proof {
            lemma_scalar_mul_commutes(other, self as int);
        }
        other * self
    }
}

impl vstd::std_specs::ops::MulSpecImpl<HexColor> for u16 {
    open spec fn obeys_mul_spec() -> bool {
        true
    }

    open spec fn mul_req(self, other: HexColor) -> bool {
        true
    }

    open spec fn mul_spec(self, other: HexColor) -> HexColor {
        scalar_times(self as int, other)
    }
}

impl<'a> core::ops::Mul<&'a HexColor> for u16 {
    type Output = HexColor;

    fn mul(self, other: &'a HexColor) -> (c: HexColor) {
        self * *other
    }
}

impl<'a> vstd::std_specs::ops::MulSpecImpl<&'a HexColor> for u16 {
    open spec fn obeys_mul_spec() -> bool {
        true
    }

    open spec fn mul_req(self, other: &'a HexColor) -> bool {
        true
    }

    open spec fn mul_spec(self, other: &'a HexColor) -> HexColor {
        scalar_times(self as int, *other)
    }
}

impl<'a> core::ops::Mul<HexColor> for &'a u16 {
    type Output = HexColor;

    fn mul(self, other: HexColor) -> (c: HexColor) {
        *self * other
    }
}

impl<'a> vstd::std_specs::ops::MulSpecImpl<HexColor> for &'a u16 {
    open spec fn obeys_mul_spec() -> bool {
        true
    }

    open spec fn mul_req(self, other: HexColor) -> bool {
        true
    }

    open spec fn mul_spec(self, other: HexColor) -> HexColor {
        scalar_times(*self as int, other)
    }
}

impl<'a, 'b> core::ops::Mul<&'b HexColor> for &'a u16 {
    type Output = HexColor;

    fn mul(self, other: &'b HexColor) -> (c: HexColor) {
        *self * *other
    }
}

impl<'a, 'b> vstd::std_specs::ops::MulSpecImpl<&'b HexColor> for &'a u16 {
    open spec fn obeys_mul_spec() -> bool {
        true
    }

    open spec fn mul_req(self, other: &'b HexColor) -> bool {
        true
    }

    open spec fn mul_spec(self, other: &'b HexColor) -> HexColor {
        scalar_times(*self as int, *other)
    }
}

impl core::ops::Add<HexColor> for u32 {
    type Output = HexColor;

    fn add(self, other: HexColor) -> (c: HexColor) {
        proof {
            lemma_scalar_add_commutes(other, self as int);
        }
        other + self
    }
}

impl vstd::std_specs::ops::AddSpecImpl<HexColor> for u32 {
    open spec fn obeys_add_spec() -> bool {
        true
    }

    open spec fn add_req(self, other: HexColor) -> bool {
        true
    }

    open spec fn add_spec(self, other: HexColor) -> HexColor {
        scalar_plus(self as int, other)
    }
}

impl<'a> core::ops::Add<&'a HexColor> for u32 {
    type Output = HexColor;

    fn add(self, other: &'a HexColor) -> (c: HexColor) {
        self + *other
    }
}

impl<'a> vstd::std_specs::ops::AddSpecImpl<&'a HexColor> for u32 {
    open spec fn obeys_add_spec() -> bool {
        true
    }

    open spec fn add_req(self, other: &'a HexColor) -> bool {
        true
    }

    open spec fn add_spec(self, other: &'a HexColor) -> HexColor {
        scalar_plus(self as int, *other)
    }
}

impl<'a> core::ops::Add<HexColor> for &'a u32 {
    type Output = HexColor;

    fn add(self, other: HexColor) -> (c: HexColor) {
        *self + other
    }
}

impl<'a> vstd::std_specs::ops::AddSpecImpl<HexColor> for &'a u32 {
    open spec fn obeys_add_spec() -> bool {
        true
    }

    open spec fn add_req(self, other: HexColor) -> bool {
        true
    }

    open spec fn add_spec(self, other: HexColor) -> HexColor {
        scalar_plus(*self as int, other)
    }
}

impl<'a, 'b> core::ops::Add<&'b HexColor> for &'a u32 {
    type Output = HexColor;

    fn add(self, other: &'b HexColor) -> (c: HexColor) {
        *self + *other
    }
}

impl<'a, 'b> vstd::std_specs::ops::AddSpecImpl<&'b HexColor> for &'a u32 {
    open spec fn obeys_add_spec() -> bool {
        true
    }

    open spec fn add_req(self, other: &'b HexColor) -> bool {
        true
    }

    open spec fn add_spec(self, other: &'b HexColor) -> HexColor {
        scalar_plus(*self as int, *other)
    }
}

impl core::ops::Sub<HexColor> for u32 {
    type Output = HexColor;

    fn sub(self, other: HexColor) -> (c: HexColor) {
        scalar_minus_color(self, other)
    }
}

impl vstd::std_specs::ops::SubSpecImpl<HexColor> for u32 {
    open spec fn obeys_sub_spec() -> bool {
        true
    }

    open spec fn sub_req(self, other: HexColor) -> bool {
        true
    }

    open spec fn sub_spec(self, other: HexColor) -> HexColor {
        scalar_minus(self as int, other)
    }
}

impl<'a> core::ops::Sub<&'a HexColor> for u32 {
    type Output = HexColor;

    fn sub(self, other: &'a HexColor) -> (c: HexColor) {
        self - *other
    }
}

impl<'a> vstd::std_specs::ops::SubSpecImpl<&'a HexColor> for u32 {
    open spec fn obeys_sub_spec() -> bool {
        true
    }

    open spec fn sub_req(self, other: &'a HexColor) -> bool {
        true
    }

    open spec fn sub_spec(self, other: &'a HexColor) -> HexColor {
        scalar_minus(self as int, *other)
    }
}

impl<'a> core::ops::Sub<HexColor> for &'a u32 {
    type Output = HexColor;

    fn sub(self, other: HexColor) -> (c: HexColor) {
        *self - other
    }
}

impl<'a> vstd::std_specs::ops::SubSpecImpl<HexColor> for &'a u32 {
    open spec fn obeys_sub_spec() -> bool {
        true
    }

    open spec fn sub_req(self, other: HexColor) -> bool {
        true
    }

    open spec fn sub_spec(self, other: HexColor) -> HexColor {
        scalar_minus(*self as int, other)
    }
}

impl<'a, 'b> core::ops::Sub<&'b HexColor> for &'a u32 {
    type Output = HexColor;

    fn sub(self, other: &'b HexColor) -> (c: HexColor) {
        *self - *other
    }
}

impl<'a, 'b> vstd::std_specs::ops::SubSpecImpl<&'b HexColor> for &'a u32 {
    open spec fn obeys_sub_spec() -> bool {
        true
    }

    open spec fn sub_req(self, other: &'b HexColor) -> bool {
        true
    }

    open spec fn sub_spec(self, other: &'b HexColor) -> HexColor {
        scalar_minus(*self as int, *other)
    }
}

impl core::ops::Mul<HexColor> for u32 {
    type Output = HexColor;

    fn mul(self, other: HexColor) -> (c: HexColor) {
        proof {
            lemma_scalar_mul_commutes(other, self as int);
        }
        other * self
    }
}

impl vstd::std_specs::ops::MulSpecImpl<HexColor> for u32 {
    open spec fn obeys_mul_spec() -> bool {
        true
    }

    open spec fn mul_req(self, other: HexColor) -> bool {
        true
    }

    open spec fn mul_spec(self, other: HexColor) -> HexColor {
        scalar_times(self as int, other)
    }
}

impl<'a> core::ops::Mul<&'a HexColor> for u32 {
    type Output = HexColor;

    fn mul(self, other: &'a HexColor) -> (c: HexColor) {
        self * *other
    }
}

impl<'a> vstd::std_specs::ops::MulSpecImpl<&'a HexColor> for u32 {
    open spec fn obeys_mul_spec() -> bool {
        true
    }

    open spec fn mul_req(self, other: &'a HexColor) -> bool {
        true
    }

    open spec fn mul_spec(self, other: &'a HexColor) -> HexColor {
        scalar_times(self as int, *other)
    }
}

impl<'a> core::ops::Mul<HexColor> for &'a u32 {
    type Output = HexColor;

    fn mul(self, other: HexColor) -> (c: HexColor) {
        *self * other
    }
}

impl<'a> vstd::std_specs::ops::MulSpecImpl<HexColor> for &'a u32 {
    open spec fn obeys_mul_spec() -> bool {
        true
    }

    open spec fn mul_req(self, other: HexColor) -> bool {
        true
    }

    open spec fn mul_spec(self, other: HexColor) -> HexColor {
        scalar_times(*self as int, other)
    }
}

impl<'a, 'b> core::ops::Mul<&'b HexColor> for &'a u32 {
    type Output = HexColor;

    fn mul(self, other: &'b HexColor) -> (c: HexColor) {
        *self * *other
    }
}

impl<'a, 'b> vstd::std_specs::ops::MulSpecImpl<&'b HexColor> for &'a u32 {
    open spec fn obeys_mul_spec() -> bool {
        true
    }

    open spec fn mul_req(self, other: &'b HexColor) -> bool {
        true
    }

    open spec fn mul_spec(self, other: &'b HexColor) -> HexColor {
        scalar_times(*self as int, *other)
    }
}

impl core::ops::Add<HexColor> for u64 {
    type Output = HexColor;

    fn add(self, other: HexColor) -> (c: HexColor) {
        proof {
            lemma_scalar_add_commutes(other, self as int);
        }
        other + self
    }
}

impl vstd::std_specs::ops::AddSpecImpl<HexColor> for u64 {
    open spec fn obeys_add_spec() -> bool {
        true
    }

    open spec fn add_req(self, other: HexColor) -> bool {
        true
    }

    open spec fn add_spec(self, other: HexColor) -> HexColor {
        scalar_plus(self as int, other)
    }
}

impl<'a> core::ops::Add<&'a HexColor> for u64 {
    type Output = HexColor;

    fn add(self, other: &'a HexColor) -> (c: HexColor) {
        self + *other
    }
}

impl<'a> vstd::std_specs::ops::AddSpecImpl<&'a HexColor> for u64 {
    open spec fn obeys_add_spec() -> bool {
        true
    }

    open spec fn add_req(self, other: &'a HexColor) -> bool {
        true
    }

    open spec fn add_spec(self, other: &'a HexColor) -> HexColor {
        scalar_plus(self as int, *other)
    }
}

impl<'a> core::ops::Add<HexColor> for &'a u64 {
    type Output = HexColor;

    fn add(self, other: HexColor) -> (c: HexColor) {
        *self + other
    }
}

impl<'a> vstd::std_specs::ops::AddSpecImpl<HexColor> for &'a u64 {
    open spec fn obeys_add_spec() -> bool {
        true
    }

    open spec fn add_req(self, other: HexColor) -> bool {
        true
    }

    open spec fn add_spec(self, other: HexColor) -> HexColor {
        scalar_plus(*self as int, other)
    }
}

impl<'a, 'b> core::ops::Add<&'b HexColor> for &'a u64 {
    type Output = HexColor;

    fn add(self, other: &'b HexColor) -> (c: HexColor) {
        *self + *other
    }
}

impl<'a, 'b> vstd::std_specs::ops::AddSpecImpl<&'b HexColor> for &'a u64 {
    open spec fn obeys_add_spec() -> bool {
        true
    }

    open spec fn add_req(self, other: &'b HexColor) -> bool {
        true
    }

    open spec fn add_spec(self, other: &'b HexColor) -> HexColor {
        scalar_plus(*self as int, *other)
    }
}

impl core::ops::Sub<HexColor> for u64 {
    type Output = HexColor;

    fn sub(self, other: HexColor) -> (c: HexColor) {
        scalar_minus_color(self, other)
    }
}

impl vstd::std_specs::ops::SubSpecImpl<HexColor> for u64 {
    open spec fn obeys_sub_spec() -> bool {
        true
    }

    open spec fn sub_req(self, other: HexColor) -> bool {
        true
    }

    open spec fn sub_spec(self, other: HexColor) -> HexColor {
        scalar_minus(self as int, other)
    }
}

impl<'a> core::ops::Sub<&'a HexColor> for u64 {
    type Output = HexColor;

    fn sub(self, other: &'a HexColor) -> (c: HexColor) {
        self - *other
    }
}

impl<'a> vstd::std_specs::ops::SubSpecImpl<&'a HexColor> for u64 {
    open spec fn obeys_sub_spec() -> bool {
        true
    }

    open spec fn sub_req(self, other: &'a HexColor) -> bool {
        true
    }

    open spec fn sub_spec(self, other: &'a HexColor) -> HexColor {
        scalar_minus(self as int, *other)
    }
}

impl<'a> core::ops::Sub<HexColor> for &'a u64 {
    type Output = HexColor;

    fn sub(self, other: HexColor) -> (c: HexColor) {
        *self - other
    }
}

impl<'a> vstd::std_specs::ops::SubSpecImpl<HexColor> for &'a u64 {
    open spec fn obeys_sub_spec() -> bool {
        true
    }

    open spec fn sub_req(self, other: HexColor) -> bool {
        true
    }

    open spec fn sub_spec(self, other: HexColor) -> HexColor {
        scalar_minus(*self as int, other)
    }
}

impl<'a, 'b> core::ops::Sub<&'b HexColor> for &'a u64 {
    type Output = HexColor;

    fn sub(self, other: &'b HexColor) -> (c: HexColor) {
        *self - *other
    }
}

impl<'a, 'b> vstd::std_specs::ops::SubSpecImpl<&'b HexColor> for &'a u64 {
    open spec fn obeys_sub_spec() -> bool {
        true
    }

    open spec fn sub_req(self, other: &'b HexColor) -> bool {
        true
    }

    open spec fn sub_spec(self, other: &'b HexColor) -> HexColor {
        scalar_minus(*self as int, *other)
    }
}

impl core::ops::Mul<HexColor> for u64 {
    type Output = HexColor;

    fn mul(self, other: HexColor) -> (c: HexColor) {
        proof {
            lemma_scalar_mul_commutes(other, self as int);
        }
        other * self
    }
}

impl vstd::std_specs::ops::MulSpecImpl<HexColor> for u64 {
    open spec fn obeys_mul_spec() -> bool {
        true
    }

    open spec fn mul_req(self, other: HexColor) -> bool {
        true
    }

    open spec fn mul_spec(self, other: HexColor) -> HexColor {
        scalar_times(self as int, other)
    }
}

impl<'a> core::ops::Mul<&'a HexColor> for u64 {
    type Output = HexColor;

    fn mul(self, other: &'a HexColor) -> (c: HexColor) {
        self * *other
    }
}

impl<'a> vstd::std_specs::ops::MulSpecImpl<&'a HexColor> for u64 {
    open spec fn obeys_mul_spec() -> bool {
        true
    }

    open spec fn mul_req(self, other: &'a HexColor) -> bool {
        true
    }

    open spec fn mul_spec(self, other: &'a HexColor) -> HexColor {
        scalar_times(self as int, *other)
    }
}

impl<'a> core::ops::Mul<HexColor> for &'a u64 {
    type Output = HexColor;

    fn mul(self, other: HexColor) -> (c: HexColor) {
        *self * other
    }
}

impl<'a> vstd::std_specs::ops::MulSpecImpl<HexColor> for &'a u64 {
    open spec fn obeys_mul_spec() -> bool {
        true
    }

    open spec fn mul_req(self, other: HexColor) -> bool {
        true
    }

    open spec fn mul_spec(self, other: HexColor) -> HexColor {
        scalar_times(*self as int, other)
    }
}

impl<'a, 'b> core::ops::Mul<&'b HexColor> for &'a u64 {
    type Output = HexColor;

    fn mul(self, other: &'b HexColor) -> (c: HexColor) {
        *self * *other
    }
}

impl<'a, 'b> vstd::std_specs::ops::MulSpecImpl<&'b HexColor> for &'a u64 {
    open spec fn obeys_mul_spec() -> bool {
        true
    }

    open spec fn mul_req(self, other: &'b HexColor) -> bool {
        true
    }

    open spec fn mul_spec(self, other: &'b HexColor) -> HexColor {
        scalar_times(*self as int, *other)
    }
}

impl core::ops::Add<HexColor> for u128 {
    type Output = HexColor;

    fn add(self, other: HexColor) -> (c: HexColor) {
        proof {
            lemma_scalar_add_commutes(other, self as int);
        }
        other + self
    }
}

impl vstd::std_specs::ops::AddSpecImpl<HexColor> for u128 {
    open spec fn obeys_add_spec() -> bool {
        true
    }

    open spec fn add_req(self, other: HexColor) -> bool {
        true
    }

    open spec fn add_spec(self, other: HexColor) -> HexColor {
        scalar_plus(self as int, other)
    }
}

impl<'a> core::ops::Add<&'a HexColor> for u128 {
    type Output = HexColor;

    fn add(self, other: &'a HexColor) -> (c: HexColor) {
        self + *other
    }
}

impl<'a> vstd::std_specs::ops::AddSpecImpl<&'a HexColor> for u128 {
    open spec fn obeys_add_spec() -> bool {
        true
    }

    open spec fn add_req(self, other: &'a HexColor) -> bool {
        true
    }

    open spec fn add_spec(self, other: &'a HexColor) -> HexColor {
        scalar_plus(self as int, *other)
    }
}

impl<'a> core::ops::Add<HexColor> for &'a u128 {
    type Output = HexColor;

    fn add(self, other: HexColor) -> (c: HexColor) {
        *self + other
    }
}

impl<'a> vstd::std_specs::ops::AddSpecImpl<HexColor> for &'a u128 {
    open spec fn obeys_add_spec() -> bool {
        true
    }

    open spec fn add_req(self, other: HexColor) -> bool {
        true
    }

    open spec fn add_spec(self, other: HexColor) -> HexColor {
        scalar_plus(*self as int, other)
    }
}

impl<'a, 'b> core::ops::Add<&'b HexColor> for &'a u128 {
    type Output = HexColor;

    fn add(self, other: &'b HexColor) -> (c: HexColor) {
        *self + *other
    }
}

impl<'a, 'b> vstd::std_specs::ops::AddSpecImpl<&'b HexColor> for &'a u128 {
    open spec fn obeys_add_spec() -> bool {
        true
    }

    open spec fn add_req(self, other: &'b HexColor) -> bool {
        true
    }

    open spec fn add_spec(self, other: &'b HexColor) -> HexColor {
        scalar_plus(*self as int, *other)
    }
}

impl core::ops::Sub<HexColor> for u128 {
    type Output = HexColor;

    fn sub(self, other: HexColor) -> (c: HexColor) {
        scalar_minus_color(self, other)
    }
}

impl vstd::std_specs::ops::SubSpecImpl<HexColor> for u128 {
    open spec fn obeys_sub_spec() -> bool {
        true
    }

    open spec fn sub_req(self, other: HexColor) -> bool {
        true
    }

    open spec fn sub_spec(self, other: HexColor) -> HexColor {
        scalar_minus(self as int, other)
    }
}

impl<'a> core::ops::Sub<&'a HexColor> for u128 {
    type Output = HexColor;

    fn sub(self, other: &'a HexColor) -> (c: HexColor) {
        self - *other
    }
}

impl<'a> vstd::std_specs::ops::SubSpecImpl<&'a HexColor> for u128 {
    open spec fn obeys_sub_spec() -> bool {
        true
    }

    open spec fn sub_req(self, other: &'a HexColor) -> bool {
        true
    }

    open spec fn sub_spec(self, other: &'a HexColor) -> HexColor {
        scalar_minus(self as int, *other)
    }
}

impl<'a> core::ops::Sub<HexColor> for &'a u128 {
    type Output = HexColor;

    fn sub(self, other: HexColor) -> (c: HexColor) {
        *self - other
    }
}

impl<'a> vstd::std_specs::ops::SubSpecImpl<HexColor> for &'a u128 {
    open spec fn obeys_sub_spec() -> bool {
        true
    }

    open spec fn sub_req(self, other: HexColor) -> bool {
        true
    }

    open spec fn sub_spec(self, other: HexColor) -> HexColor {
        scalar_minus(*self as int, other)
    }
}

impl<'a, 'b> core::ops::Sub<&'b HexColor> for &'a u128 {
    type Output = HexColor;

    fn sub(self, other: &'b HexColor) -> (c: HexColor) {
        *self - *other
    }
}

impl<'a, 'b> vstd::std_specs::ops::SubSpecImpl<&'b HexColor> for &'a u128 {
    open spec fn obeys_sub_spec() -> bool {
        true
    }

    open spec fn sub_req(self, other: &'b HexColor) -> bool {
        true
    }

    open spec fn sub_spec(self, other: &'b HexColor) -> HexColor {
        scalar_minus(*self as int, *other)
    }
}

impl core::ops::Mul<HexColor> for u128 {
    type Output = HexColor;

    fn mul(self, other: HexColor) -> (c: HexColor) {
        proof {
            lemma_scalar_mul_commutes(other, self as int);
        }
        other * self
    }
}

impl vstd::std_specs::ops::MulSpecImpl<HexColor> for u128 {
    open spec fn obeys_mul_spec() -> bool {
        true
    }

    open spec fn mul_req(self, other: HexColor) -> bool {
        true
    }

    open spec fn mul_spec(self, other: HexColor) -> HexColor {
        scalar_times(self as int, other)
    }
}

impl<'a> core::ops::Mul<&'a HexColor> for u128 {
    type Output = HexColor;

    fn mul(self, other: &'a HexColor) -> (c: HexColor) {
        self * *other
    }
}

impl<'a> vstd::std_specs::ops::MulSpecImpl<&'a HexColor> for u128 {
    open spec fn obeys_mul_spec() -> bool {
        true
    }

    open spec fn mul_req(self, other: &'a HexColor) -> bool {
        true
    }

    open spec fn mul_spec(self, other: &'a HexColor) -> HexColor {
        scalar_times(self as int, *other)
    }
}

impl<'a> core::ops::Mul<HexColor> for &'a u128 {
    type Output = HexColor;

    fn mul(self, other: HexColor) -> (c: HexColor) {
        *self * other
    }
}

impl<'a> vstd::std_specs::ops::MulSpecImpl<HexColor> for &'a u128 {
    open spec fn obeys_mul_spec() -> bool {
        true
    }

    open spec fn mul_req(self, other: HexColor) -> bool {
        true
    }

    open spec fn mul_spec(self, other: HexColor) -> HexColor {
        scalar_times(*self as int, other)
    }
}

impl<'a, 'b> core::ops::Mul<&'b HexColor> for &'a u128 {
    type Output = HexColor;

    fn mul(self, other: &'b HexColor) -> (c: HexColor) {
        *self * *other
    }
}

impl<'a, 'b> vstd::std_specs::ops::MulSpecImpl<&'b HexColor> for &'a u128 {
    open spec fn obeys_mul_spec() -> bool {
        true
    }

    open spec fn mul_req(self, other: &'b HexColor) -> bool {
        true
    }

    open spec fn mul_spec(self, other: &'b HexColor) -> HexColor {
        scalar_times(*self as int, *other)
    }
}

impl core::ops::Add<HexColor> for usize {
    type Output = HexColor;

    fn add(self, other: HexColor) -> (c: HexColor) {
        proof {
            lemma_scalar_add_commutes(other, self as int);
        }
        other + self
    }
}

impl vstd::std_specs::ops::AddSpecImpl<HexColor> for usize {
    open spec fn obeys_add_spec() -> bool {
        true
    }

    open spec fn add_req(self, other: HexColor) -> bool {
        true
    }

    open spec fn add_spec(self, other: HexColor) -> HexColor {
        scalar_plus(self as int, other)
    }
}

impl<'a> core::ops::Add<&'a HexColor> for usize {
    type Output = HexColor;

    fn add(self, other: &'a HexColor) -> (c: HexColor) {
        self + *other
    }
}

impl<'a> vstd::std_specs::ops::AddSpecImpl<&'a HexColor> for usize {
    open spec fn obeys_add_spec() -> bool {
        true
    }

    open spec fn add_req(self, other: &'a HexColor) -> bool {
        true
    }

    open spec fn add_spec(self, other: &'a HexColor) -> HexColor {
        scalar_plus(self as int, *other)
    }
}

impl<'a> core::ops::Add<HexColor> for &'a usize {
    type Output = HexColor;

    fn add(self, other: HexColor) -> (c: HexColor) {
        *self + other
    }
}

impl<'a> vstd::std_specs::ops::AddSpecImpl<HexColor> for &'a usize {
    open spec fn obeys_add_spec() -> bool {
        true
    }

    open spec fn add_req(self, other: HexColor) -> bool {
        true
    }

    open spec fn add_spec(self, other: HexColor) -> HexColor {
        scalar_plus(*self as int, other)
    }
}

impl<'a, 'b> core::ops::Add<&'b HexColor> for &'a usize {
    type Output = HexColor;

    fn add(self, other: &'b HexColor) -> (c: HexColor) {
        *self + *other
    }
}

impl<'a, 'b> vstd::std_specs::ops::AddSpecImpl<&'b HexColor> for &'a usize {
    open spec fn obeys_add_spec() -> bool {
        true
    }

    open spec fn add_req(self, other: &'b HexColor) -> bool {
        true
    }

    open spec fn add_spec(self, other: &'b HexColor) -> HexColor {
        scalar_plus(*self as int, *other)
    }
}

impl core::ops::Sub<HexColor> for usize {
    type Output = HexColor;

    fn sub(self, other: HexColor) -> (c: HexColor) {
        scalar_minus_color(self, other)
    }
}

impl vstd::std_specs::ops::SubSpecImpl<HexColor> for usize {
    open spec fn obeys_sub_spec() -> bool {
        true
    }

    open spec fn sub_req(self, other: HexColor) -> bool {
        true
    }

    open spec fn sub_spec(self, other: HexColor) -> HexColor {
        scalar_minus(self as int, other)
    }
}

impl<'a> core::ops::Sub<&'a HexColor> for usize {
    type Output = HexColor;

    fn sub(self, other: &'a HexColor) -> (c: HexColor) {
        self - *other
    }
}

impl<'a> vstd::std_specs::ops::SubSpecImpl<&'a HexColor> for usize {
    open spec fn obeys_sub_spec() -> bool {
        true
    }

    open spec fn sub_req(self, other: &'a HexColor) -> bool {
        true
    }

    open spec fn sub_spec(self, other: &'a HexColor) -> HexColor {
        scalar_minus(self as int, *other)
    }
}

impl<'a> core::ops::Sub<HexColor> for &'a usize {
    type Output = HexColor;

    fn sub(self, other: HexColor) -> (c: HexColor) {
        *self - other
    }
}

impl<'a> vstd::std_specs::ops::SubSpecImpl<HexColor> for &'a usize {
    open spec fn obeys_sub_spec() -> bool {
        true
    }

    open spec fn sub_req(self, other: HexColor) -> bool {
        true
    }

    open spec fn sub_spec(self, other: HexColor) -> HexColor {
        scalar_minus(*self as int, other)
    }
}

impl<'a, 'b> core::ops::Sub<&'b HexColor> for &'a usize {
    type Output = HexColor;

    fn sub(self, other: &'b HexColor) -> (c: HexColor) {
        *self - *other
    }
}

impl<'a, 'b> vstd::std_specs::ops::SubSpecImpl<&'b HexColor> for &'a usize {
    open spec fn obeys_sub_spec() -> bool {
        true
    }

    open spec fn sub_req(self, other: &'b HexColor) -> bool {
        true
    }

    open spec fn sub_spec(self, other: &'b HexColor) -> HexColor {
        scalar_minus(*self as int, *other)
    }
}

impl core::ops::Mul<HexColor> for usize {
    type Output = HexColor;

    fn mul(self, other: HexColor) -> (c: HexColor) {
        proof {
            lemma_scalar_mul_commutes(other, self as int);
        }
        other * self
    }
}

impl vstd::std_specs::ops::MulSpecImpl<HexColor> for usize {
    open spec fn obeys_mul_spec() -> bool {
        true
    }

    open spec fn mul_req(self, other: HexColor) -> bool {
        true
    }

    open spec fn mul_spec(self, other: HexColor) -> HexColor {
        scalar_times(self as int, other)
    }
}

impl<'a> core::ops::Mul<&'a HexColor> for usize {
    type Output = HexColor;

    fn mul(self, other: &'a HexColor) -> (c: HexColor) {
        self * *other
    }
}

impl<'a> vstd::std_specs::ops::MulSpecImpl<&'a HexColor> for usize {
    open spec fn obeys_mul_spec() -> bool {
        true
    }

    open spec fn mul_req(self, other: &'a HexColor) -> bool {
        true
    }

    open spec fn mul_spec(self, other: &'a HexColor) -> HexColor {
        scalar_times(self as int, *other)
    }
}

impl<'a> core::ops::Mul<HexColor> for &'a usize {
    type Output = HexColor;

    fn mul(self, other: HexColor) -> (c: HexColor) {
        *self * other
    }
}

impl<'a> vstd::std_specs::ops::MulSpecImpl<HexColor> for &'a usize {
    open spec fn obeys_mul_spec() -> bool {
        true
    }

    open spec fn mul_req(self, other: HexColor) -> bool {
        true
    }

    open spec fn mul_spec(self, other: HexColor) -> HexColor {
        scalar_times(*self as int, other)
    }
}

impl<'a, 'b> core::ops::Mul<&'b HexColor> for &'a usize {
    type Output = HexColor;

    fn mul(self, other: &'b HexColor) -> (c: HexColor) {
        *self * *other
    }
}

impl<'a, 'b> vstd::std_specs::ops::MulSpecImpl<&'b HexColor> for &'a usize {
    open spec fn obeys_mul_spec() -> bool {
        true
    }

    open spec fn mul_req(self, other: &'b HexColor) -> bool {
        true
    }

    open spec fn mul_spec(self, other: &'b HexColor) -> HexColor {
        scalar_times(*self as int, *other)
    }
}

impl core::ops::Add<HexColor> for i8 {
    type Output = HexColor;

    fn add(self, other: HexColor) -> (c: HexColor) {
        proof {
            lemma_scalar_add_commutes(other, self as int);
        }
        other + self
    }
}

impl vstd::std_specs::ops::AddSpecImpl<HexColor> for i8 {
    open spec fn obeys_add_spec() -> bool {
        true
    }

    open spec fn add_req(self, other: HexColor) -> bool {
        true
    }

    open spec fn add_spec(self, other: HexColor) -> HexColor {
        scalar_plus(self as int, other)
    }
}

impl<'a> core::ops::Add<&'a HexColor> for i8 {
    type Output = HexColor;

    fn add(self, other: &'a HexColor) -> (c: HexColor) {
        self + *other
    }
}

impl<'a> vstd::std_specs::ops::AddSpecImpl<&'a HexColor> for i8 {
    open spec fn obeys_add_spec() -> bool {
        true
    }

    open spec fn add_req(self, other: &'a HexColor) -> bool {
        true
    }

    open spec fn add_spec(self, other: &'a HexColor) -> HexColor {
        scalar_plus(self as int, *other)
    }
}

impl<'a> core::ops::Add<HexColor> for &'a i8 {
    type Output = HexColor;

    fn add(self, other: HexColor) -> (c: HexColor) {
        *self + other
    }
}

impl<'a> vstd::std_specs::ops::AddSpecImpl<HexColor> for &'a i8 {
    open spec fn obeys_add_spec() -> bool {
        true
    }

    open spec fn add_req(self, other: HexColor) -> bool {
        true
    }

    open spec fn add_spec(self, other: HexColor) -> HexColor {
        scalar_plus(*self as int, other)
    }
}

impl<'a, 'b> core::ops::Add<&'b HexColor> for &'a i8 {
    type Output = HexColor;

    fn add(self, other: &'b HexColor) -> (c: HexColor) {
        *self + *other
    }
}

impl<'a, 'b> vstd::std_specs::ops::AddSpecImpl<&'b HexColor> for &'a i8 {
    open spec fn obeys_add_spec() -> bool {
        true
    }

    open spec fn add_req(self, other: &'b HexColor) -> bool {
        true
    }

    open spec fn add_spec(self, other: &'b HexColor) -> HexColor {
        scalar_plus(*self as int, *other)
    }
}

impl core::ops::Sub<HexColor> for i8 {
    type Output = HexColor;

    fn sub(self, other: HexColor) -> (c: HexColor) {
        scalar_minus_color(self, other)
    }
}

impl vstd::std_specs::ops::SubSpecImpl<HexColor> for i8 {
    open spec fn obeys_sub_spec() -> bool {
        true
    }

    open spec fn sub_req(self, other: HexColor) -> bool {
        true
    }

    open spec fn sub_spec(self, other: HexColor) -> HexColor {
        scalar_minus(self as int, other)
    }
}

impl<'a> core::ops::Sub<&'a HexColor> for i8 {
    type Output = HexColor;

    fn sub(self, other: &'a HexColor) -> (c: HexColor) {
        self - *other
    }
}

impl<'a> vstd::std_specs::ops::SubSpecImpl<&'a HexColor> for i8 {
    open spec fn obeys_sub_spec() -> bool {
        true
    }

    open spec fn sub_req(self, other: &'a HexColor) -> bool {
        true
    }

    open spec fn sub_spec(self, other: &'a HexColor) -> HexColor {
        scalar_minus(self as int, *other)
    }
}

impl<'a> core::ops::Sub<HexColor> for &'a i8 {
    type Output = HexColor;

    fn sub(self, other: HexColor) -> (c: HexColor) {
        *self - other
    }
}

impl<'a> vstd::std_specs::ops::SubSpecImpl<HexColor> for &'a i8 {
    open spec fn obeys_sub_spec() -> bool {
        true
    }

    open spec fn sub_req(self, other: HexColor) -> bool {
        true
    }

    open spec fn sub_spec(self, other: HexColor) -> HexColor {
        scalar_minus(*self as int, other)
    }
}

impl<'a, 'b> core::ops::Sub<&'b HexColor> for &'a i8 {
    type Output = HexColor;

    fn sub(self, other: &'b HexColor) -> (c: HexColor) {
        *self - *other
    }
}

impl<'a, 'b> vstd::std_specs::ops::SubSpecImpl<&'b HexColor> for &'a i8 {
    open spec fn obeys_sub_spec() -> bool {
        true
    }

    open spec fn sub_req(self, other: &'b HexColor) -> bool {
        true
    }

    open spec fn sub_spec(self, other: &'b HexColor) -> HexColor {
        scalar_minus(*self as int, *other)
    }
}

impl core::ops::Mul<HexColor> for i8 {
    type Output = HexColor;

    fn mul(self, other: HexColor) -> (c: HexColor) {
        proof {
            lemma_scalar_mul_commutes(other, self as int);
        }
        other * self
    }
}

impl vstd::std_specs::ops::MulSpecImpl<HexColor> for i8 {
    open spec fn obeys_mul_spec() -> bool {
        true
    }

    open spec fn mul_req(self, other: HexColor) -> bool {
        true
    }

    open spec fn mul_spec(self, other: HexColor) -> HexColor {
        scalar_times(self as int, other)
    }
}

impl<'a> core::ops::Mul<&'a HexColor> for i8 {
    type Output = HexColor;

    fn mul(self, other: &'a HexColor) -> (c: HexColor) {
        self * *other
    }
}

impl<'a> vstd::std_specs::ops::MulSpecImpl<&'a HexColor> for i8 {
    open spec fn obeys_mul_spec() -> bool {
        true
    }

    open spec fn mul_req(self, other: &'a HexColor) -> bool {
        true
    }

    open spec fn mul_spec(self, other: &'a HexColor) -> HexColor {
        scalar_times(self as int, *other)
    }
}

impl<'a> core::ops::Mul<HexColor> for &'a i8 {
    type Output = HexColor;

    fn mul(self, other: HexColor) -> (c: HexColor) {
        *self * other
    }
}

impl<'a> vstd::std_specs::ops::MulSpecImpl<HexColor> for &'a i8 {
    open spec fn obeys_mul_spec() -> bool {
        true
    }

    open spec fn mul_req(self, other: HexColor) -> bool {
        true
    }

    open spec fn mul_spec(self, other: HexColor) -> HexColor {
        scalar_times(*self as int, other)
    }
}

impl<'a, 'b> core::ops::Mul<&'b HexColor> for &'a i8 {
    type Output = HexColor;

    fn mul(self, other: &'b HexColor) -> (c: HexColor) {
        *self * *other
    }
}

impl<'a, 'b> vstd::std_specs::ops::MulSpecImpl<&'b HexColor> for &'a i8 {
    open spec fn obeys_mul_spec() -> bool {
        true
    }

    open spec fn mul_req(self, other: &'b HexColor) -> bool {
        true
    }

    open spec fn mul_spec(self, other: &'b HexColor) -> HexColor {
        scalar_times(*self as int, *other)
    }
}

impl core::ops::Add<HexColor> for i16 {
    type Output = HexColor;

    fn add(self, other: HexColor) -> (c: HexColor) {
        proof {
            lemma_scalar_add_commutes(other, self as int);
        }
        other + self
    }
}

impl vstd::std_specs::ops::AddSpecImpl<HexColor> for i16 {
    open spec fn obeys_add_spec() -> bool {
        true
    }

    open spec fn add_req(self, other: HexColor) -> bool {
        true
    }

    open spec fn add_spec(self, other: HexColor) -> HexColor {
        scalar_plus(self as int, other)
    }
}

impl<'a> core::ops::Add<&'a HexColor> for i16 {
    type Output = HexColor;

    fn add(self, other: &'a HexColor) -> (c: HexColor) {
        self + *other
    }
}

impl<'a> vstd::std_specs::ops::AddSpecImpl<&'a HexColor> for i16 {
    open spec fn obeys_add_spec() -> bool {
        true
    }

    open spec fn add_req(self, other: &'a HexColor) -> bool {
        true
    }

    open spec fn add_spec(self, other: &'a HexColor) -> HexColor {
        scalar_plus(self as int, *other)
    }
}

impl<'a> core::ops::Add<HexColor> for &'a i16 {
    type Output = HexColor;

    fn add(self, other: HexColor) -> (c: HexColor) {
        *self + other
    }
}

impl<'a> vstd::std_specs::ops::AddSpecImpl<HexColor> for &'a i16 {
    open spec fn obeys_add_spec() -> bool {
        true
    }

    open spec fn add_req(self, other: HexColor) -> bool {
        true
    }

    open spec fn add_spec(self, other: HexColor) -> HexColor {
        scalar_plus(*self as int, other)
    }
}

impl<'a, 'b> core::ops::Add<&'b HexColor> for &'a i16 {
    type Output = HexColor;

    fn add(self, other: &'b HexColor) -> (c: HexColor) {
        *self + *other
    }
}

impl<'a, 'b> vstd::std_specs::ops::AddSpecImpl<&'b HexColor> for &'a i16 {
    open spec fn obeys_add_spec() -> bool {
        true
    }

    open spec fn add_req(self, other: &'b HexColor) -> bool {
        true
    }

    open spec fn add_spec(self, other: &'b HexColor) -> HexColor {
        scalar_plus(*self as int, *other)
    }
}

impl core::ops::Sub<HexColor> for i16 {
    type Output = HexColor;

    fn sub(self, other: HexColor) -> (c: HexColor) {
        scalar_minus_color(self, other)
    }
}

impl vstd::std_specs::ops::SubSpecImpl<HexColor> for i16 {
    open spec fn obeys_sub_spec() -> bool {
        true
    }

    open spec fn sub_req(self, other: HexColor) -> bool {
        true
    }

    open spec fn sub_spec(self, other: HexColor) -> HexColor {
        scalar_minus(self as int, other)
    }
}

impl<'a> core::ops::Sub<&'a HexColor> for i16 {
    type Output = HexColor;

    fn sub(self, other: &'a HexColor) -> (c: HexColor) {
        self - *other
    }
}

impl<'a> vstd::std_specs::ops::SubSpecImpl<&'a HexColor> for i16 {
    open spec fn obeys_sub_spec() -> bool {
        true
    }

    open spec fn sub_req(self, other: &'a HexColor) -> bool {
        true
    }

    open spec fn sub_spec(self, other: &'a HexColor) -> HexColor {
        scalar_minus(self as int, *other)
    }
}

impl<'a> core::ops::Sub<HexColor> for &'a i16 {
    type Output = HexColor;

    fn sub(self, other: HexColor) -> (c: HexColor) {
        *self - other
    }
}

impl<'a> vstd::std_specs::ops::SubSpecImpl<HexColor> for &'a i16 {
    open spec fn obeys_sub_spec() -> bool {
        true
    }

    open spec fn sub_req(self, other: HexColor) -> bool {
        true
    }

    open spec fn sub_spec(self, other: HexColor) -> HexColor {
        scalar_minus(*self as int, other)
    }
}

impl<'a, 'b> core::ops::Sub<&'b HexColor> for &'a i16 {
    type Output = HexColor;

    fn sub(self, other: &'b HexColor) -> (c: HexColor) {
        *self - *other
    }
}

impl<'a, 'b> vstd::std_specs::ops::SubSpecImpl<&'b HexColor> for &'a i16 {
    open spec fn obeys_sub_spec() -> bool {
        true
    }

    open spec fn sub_req(self, other: &'b HexColor) -> bool {
        true
    }

    open spec fn sub_spec(self, other: &'b HexColor) -> HexColor {
        scalar_minus(*self as int, *other)
    }
}

impl core::ops::Mul<HexColor> for i16 {
    type Output = HexColor;

    fn mul(self, other: HexColor) -> (c: HexColor) {
        proof {
            lemma_scalar_mul_commutes(other, self as int);
        }
        other * self
    }
}

impl vstd::std_specs::ops::MulSpecImpl<HexColor> for i16 {
    open spec fn obeys_mul_spec() -> bool {
        true
    }

    open spec fn mul_req(self, other: HexColor) -> bool {
        true
    }

    open spec fn mul_spec(self, other: HexColor) -> HexColor {
        scalar_times(self as int, other)
    }
}

impl<'a> core::ops::Mul<&'a HexColor> for i16 {
    type Output = HexColor;

    fn mul(self, other: &'a HexColor) -> (c: HexColor) {
        self * *other
    }
}

impl<'a> vstd::std_specs::ops::MulSpecImpl<&'a HexColor> for i16 {
    open spec fn obeys_mul_spec() -> bool {
        true
    }

    open spec fn mul_req(self, other: &'a HexColor) -> bool {
        true
    }

    open spec fn mul_spec(self, other: &'a HexColor) -> HexColor {
        scalar_times(self as int, *other)
    }
}

impl<'a> core::ops::Mul<HexColor> for &'a i16 {
    type Output = HexColor;

    fn mul(self, other: HexColor) -> (c: HexColor) {
        *self * other
    }
}

impl<'a> vstd::std_specs::ops::MulSpecImpl<HexColor> for &'a i16 {
    open spec fn obeys_mul_spec() -> bool {
        true
    }

    open spec fn mul_req(self, other: HexColor) -> bool {
        true
    }

    open spec fn mul_spec(self, other: HexColor) -> HexColor {
        scalar_times(*self as int, other)
    }
}

impl<'a, 'b> core::ops::Mul<&'b HexColor> for &'a i16 {
    type Output = HexColor;

    fn mul(self, other: &'b HexColor) -> (c: HexColor) {
        *self * *other
    }
}

impl<'a, 'b> vstd::std_specs::ops::MulSpecImpl<&'b HexColor> for &'a i16 {
    open spec fn obeys_mul_spec() -> bool {
        true
    }

    open spec fn mul_req(self, other: &'b HexColor) -> bool {
        true
    }

    open spec fn mul_spec(self, other: &'b HexColor) -> HexColor {
        scalar_times(*self as int, *other)
    }
}

impl core::ops::Add<HexColor> for i32 {
    type Output = HexColor;

    fn add(self, other: HexColor) -> (c: HexColor) {
        proof {
            lemma_scalar_add_commutes(other, self as int);
        }
        other + self
    }
}

impl vstd::std_specs::ops::AddSpecImpl<HexColor> for i32 {
    open spec fn obeys_add_spec() -> bool {
        true
    }

    open spec fn add_req(self, other: HexColor) -> bool {
        true
    }

    open spec fn add_spec(self, other: HexColor) -> HexColor {
        scalar_plus(self as int, other)
    }
}

impl<'a> core::ops::Add<&'a HexColor> for i32 {
    type Output = HexColor;

    fn add(self, other: &'a HexColor) -> (c: HexColor) {
        self + *other
    }
}

impl<'a> vstd::std_specs::ops::AddSpecImpl<&'a HexColor> for i32 {
    open spec fn obeys_add_spec() -> bool {
        true
    }

    open spec fn add_req(self, other: &'a HexColor) -> bool {
        true
    }

    open spec fn add_spec(self, other: &'a HexColor) -> HexColor {
        scalar_plus(self as int, *other)
    }
}

impl<'a> core::ops::Add<HexColor> for &'a i32 {
    type Output = HexColor;

    fn add(self, other: HexColor) -> (c: HexColor) {
        *self + other
    }
}

impl<'a> vstd::std_specs::ops::AddSpecImpl<HexColor> for &'a i32 {
    open spec fn obeys_add_spec() -> bool {
        true
    }

    open spec fn add_req(self, other: HexColor) -> bool {
        true
    }

    open spec fn add_spec(self, other: HexColor) -> HexColor {
        scalar_plus(*self as int, other)
    }
}

impl<'a, 'b> core::ops::Add<&'b HexColor> for &'a i32 {
    type Output = HexColor;

    fn add(self, other: &'b HexColor) -> (c: HexColor) {
        *self + *other
    }
}

impl<'a, 'b> vstd::std_specs::ops::AddSpecImpl<&'b HexColor> for &'a i32 {
    open spec fn obeys_add_spec() -> bool {
        true
    }

    open spec fn add_req(self, other: &'b HexColor) -> bool {
        true
    }

    open spec fn add_spec(self, other: &'b HexColor) -> HexColor {
        scalar_plus(*self as int, *other)
    }
}

impl core::ops::Sub<HexColor> for i32 {
    type Output = HexColor;

    fn sub(self, other: HexColor) -> (c: HexColor) {
        scalar_minus_color(self, other)
    }
}

impl vstd::std_specs::ops::SubSpecImpl<HexColor> for i32 {
    open spec fn obeys_sub_spec() -> bool {
        true
    }

    open spec fn sub_req(self, other: HexColor) -> bool {
        true
    }

    open spec fn sub_spec(self, other: HexColor) -> HexColor {
        scalar_minus(self as int, other)
    }
}

impl<'a> core::ops::Sub<&'a HexColor> for i32 {
    type Output = HexColor;

    fn sub(self, other: &'a HexColor) -> (c: HexColor) {
        self - *other
    }
}

impl<'a> vstd::std_specs::ops::SubSpecImpl<&'a HexColor> for i32 {
    open spec fn obeys_sub_spec() -> bool {
        true
    }

    open spec fn sub_req(self, other: &'a HexColor) -> bool {
        true
    }

    open spec fn sub_spec(self, other: &'a HexColor) -> HexColor {
        scalar_minus(self as int, *other)
    }
}

impl<'a> core::ops::Sub<HexColor> for &'a i32 {
    type Output = HexColor;

    fn sub(self, other: HexColor) -> (c: HexColor) {
        *self - other
    }
}

impl<'a> vstd::std_specs::ops::SubSpecImpl<HexColor> for &'a i32 {
    open spec fn obeys_sub_spec() -> bool {
        true
    }

    open spec fn sub_req(self, other: HexColor) -> bool {
        true
    }

    open spec fn sub_spec(self, other: HexColor) -> HexColor {
        scalar_minus(*self as int, other)
    }
}

impl<'a, 'b> core::ops::Sub<&'b HexColor> for &'a i32 {
    type Output = HexColor;

    fn sub(self, other: &'b HexColor) -> (c: HexColor) {
        *self - *other
    }
}

impl<'a, 'b> vstd::std_specs::ops::SubSpecImpl<&'b HexColor> for &'a i32 {
    open spec fn obeys_sub_spec() -> bool {
        true
    }

    open spec fn sub_req(self, other: &'b HexColor) -> bool {
        true
    }

    open spec fn sub_spec(self, other: &'b HexColor) -> HexColor {
        scalar_minus(*self as int, *other)
    }
}

impl core::ops::Mul<HexColor> for i32 {
    type Output = HexColor;

    fn mul(self, other: HexColor) -> (c: HexColor) {
        proof {
            lemma_scalar_mul_commutes(other, self as int);
        }
        other * self
    }
}

impl vstd::std_specs::ops::MulSpecImpl<HexColor> for i32 {
    open spec fn obeys_mul_spec() -> bool {
        true
    }

    open spec fn mul_req(self, other: HexColor) -> bool {
        true
    }

    open spec fn mul_spec(self, other: HexColor) -> HexColor {
        scalar_times(self as int, other)
    }
}

impl<'a> core::ops::Mul<&'a HexColor> for i32 {
    type Output = HexColor;

    fn mul(self, other: &'a HexColor) -> (c: HexColor) {
        self * *other
    }
}

impl<'a> vstd::std_specs::ops::MulSpecImpl<&'a HexColor> for i32 {
    open spec fn obeys_mul_spec() -> bool {
        true
    }

    open spec fn mul_req(self, other: &'a HexColor) -> bool {
        true
    }

    open spec fn mul_spec(self, other: &'a HexColor) -> HexColor {
        scalar_times(self as int, *other)
    }
}

impl<'a> core::ops::Mul<HexColor> for &'a i32 {
    type Output = HexColor;

    fn mul(self, other: HexColor) -> (c: HexColor) {
        *self * other
    }
}

impl<'a> vstd::std_specs::ops::MulSpecImpl<HexColor> for &'a i32 {
    open spec fn obeys_mul_spec() -> bool {
        true
    }

    open spec fn mul_req(self, other: HexColor) -> bool {
        true
    }

    open spec fn mul_spec(self, other: HexColor) -> HexColor {
        scalar_times(*self as int, other)
    }
}

impl<'a, 'b> core::ops::Mul<&'b HexColor> for &'a i32 {
    type Output = HexColor;

    fn mul(self, other: &'b HexColor) -> (c: HexColor) {
        *self * *other
    }
}

impl<'a, 'b> vstd::std_specs::ops::MulSpecImpl<&'b HexColor> for &'a i32 {
    open spec fn obeys_mul_spec() -> bool {
        true
    }

    open spec fn mul_req(self, other: &'b HexColor) -> bool {
        true
    }

    open spec fn mul_spec(self, other: &'b HexColor) -> HexColor {
        scalar_times(*self as int, *other)
    }
}

impl core::ops::Add<HexColor> for i64 {
    type Output = HexColor;

    fn add(self, other: HexColor) -> (c: HexColor) {
        proof {
            lemma_scalar_add_commutes(other, self as int);
        }
        other + self
    }
}

impl vstd::std_specs::ops::AddSpecImpl<HexColor> for i64 {
    open spec fn obeys_add_spec() -> bool {
        true
    }

    open spec fn add_req(self, other: HexColor) -> bool {
        true
    }

    open spec fn add_spec(self, other: HexColor) -> HexColor {
        scalar_plus(self as int, other)
    }
}

impl<'a> core::ops::Add<&'a HexColor> for i64 {
    type Output = HexColor;

    fn add(self, other: &'a HexColor) -> (c: HexColor) {
        self + *other
    }
}

impl<'a> vstd::std_specs::ops::AddSpecImpl<&'a HexColor> for i64 {
    open spec fn obeys_add_spec() -> bool {
        true
    }

    open spec fn add_req(self, other: &'a HexColor) -> bool {
        true
    }

    open spec fn add_spec(self, other: &'a HexColor) -> HexColor {
        scalar_plus(self as int, *other)
    }
}

impl<'a> core::ops::Add<HexColor> for &'a i64 {
    type Output = HexColor;

    fn add(self, other: HexColor) -> (c: HexColor) {
        *self + other
    }
}

impl<'a> vstd::std_specs::ops::AddSpecImpl<HexColor> for &'a i64 {
    open spec fn obeys_add_spec() -> bool {
        true
    }

    open spec fn add_req(self, other: HexColor) -> bool {
        true
    }

    open spec fn add_spec(self, other: HexColor) -> HexColor {
        scalar_plus(*self as int, other)
    }
}

impl<'a, 'b> core::ops::Add<&'b HexColor> for &'a i64 {
    type Output = HexColor;

    fn add(self, other: &'b HexColor) -> (c: HexColor) {
        *self + *other
    }
}

impl<'a, 'b> vstd::std_specs::ops::AddSpecImpl<&'b HexColor> for &'a i64 {
    open spec fn obeys_add_spec() -> bool {
        true
    }

    open spec fn add_req(self, other: &'b HexColor) -> bool {
        true
    }

    open spec fn add_spec(self, other: &'b HexColor) -> HexColor {
        scalar_plus(*self as int, *other)
    }
}

impl core::ops::Sub<HexColor> for i64 {
    type Output = HexColor;

    fn sub(self, other: HexColor) -> (c: HexColor) {
        scalar_minus_color(self, other)
    }
}

impl vstd::std_specs::ops::SubSpecImpl<HexColor> for i64 {
    open spec fn obeys_sub_spec() -> bool {
        true
    }

    open spec fn sub_req(self, other: HexColor) -> bool {
        true
    }

    open spec fn sub_spec(self, other: HexColor) -> HexColor {
        scalar_minus(self as int, other)
    }
}

impl<'a> core::ops::Sub<&'a HexColor> for i64 {
    type Output = HexColor;

    fn sub(self, other: &'a HexColor) -> (c: HexColor) {
        self - *other
    }
}

impl<'a> vstd::std_specs::ops::SubSpecImpl<&'a HexColor> for i64 {
    open spec fn obeys_sub_spec() -> bool {
        true
    }

    open spec fn sub_req(self, other: &'a HexColor) -> bool {
        true
    }

    open spec fn sub_spec(self, other: &'a HexColor) -> HexColor {
        scalar_minus(self as int, *other)
    }
}

impl<'a> core::ops::Sub<HexColor> for &'a i64 {
    type Output = HexColor;

    fn sub(self, other: HexColor) -> (c: HexColor) {
        *self - other
    }
}

impl<'a> vstd::std_specs::ops::SubSpecImpl<HexColor> for &'a i64 {
    open spec fn obeys_sub_spec() -> bool {
        true
    }

    open spec fn sub_req(self, other: HexColor) -> bool {
        true
    }

    open spec fn sub_spec(self, other: HexColor) -> HexColor {
        scalar_minus(*self as int, other)
    }
}

impl<'a, 'b> core::ops::Sub<&'b HexColor> for &'a i64 {
    type Output = HexColor;

    fn sub(self, other: &'b HexColor) -> (c: HexColor) {
        *self - *other
    }
}

impl<'a, 'b> vstd::std_specs::ops::SubSpecImpl<&'b HexColor> for &'a i64 {
    open spec fn obeys_sub_spec() -> bool {
        true
    }

    open spec fn sub_req(self, other: &'b HexColor) -> bool {
        true
    }

    open spec fn sub_spec(self, other: &'b HexColor) -> HexColor {
        scalar_minus(*self as int, *other)
    }
}

impl core::ops::Mul<HexColor> for i64 {
    type Output = HexColor;

    fn mul(self, other: HexColor) -> (c: HexColor) {
        proof {
            lemma_scalar_mul_commutes(other, self as int);
        }
        other * self
    }
}

impl vstd::std_specs::ops::MulSpecImpl<HexColor> for i64 {
    open spec fn obeys_mul_spec() -> bool {
        true
    }

    open spec fn mul_req(self, other: HexColor) -> bool {
        true
    }

    open spec fn mul_spec(self, other: HexColor) -> HexColor {
        scalar_times(self as int, other)
    }
}

impl<'a> core::ops::Mul<&'a HexColor> for i64 {
    type Output = HexColor;

    fn mul(self, other: &'a HexColor) -> (c: HexColor) {
        self * *other
    }
}

impl<'a> vstd::std_specs::ops::MulSpecImpl<&'a HexColor> for i64 {
    open spec fn obeys_mul_spec() -> bool {
        true
    }

    open spec fn mul_req(self, other: &'a HexColor) -> bool {
        true
    }

    open spec fn mul_spec(self, other: &'a HexColor) -> HexColor {
        scalar_times(self as int, *other)
    }
}

impl<'a> core::ops::Mul<HexColor> for &'a i64 {
    type Output = HexColor;

    fn mul(self, other: HexColor) -> (c: HexColor) {
        *self * other
    }
}

impl<'a> vstd::std_specs::ops::MulSpecImpl<HexColor> for &'a i64 {
    open spec fn obeys_mul_spec() -> bool {
        true
    }

    open spec fn mul_req(self, other: HexColor) -> bool {
        true
    }

    open spec fn mul_spec(self, other: HexColor) -> HexColor {
        scalar_times(*self as int, other)
    }
}

impl<'a, 'b> core::ops::Mul<&'b HexColor> for &'a i64 {
    type Output = HexColor;

    fn mul(self, other: &'b HexColor) -> (c: HexColor) {
        *self * *other
    }
}

impl<'a, 'b> vstd::std_specs::ops::MulSpecImpl<&'b HexColor> for &'a i64 {
    open spec fn obeys_mul_spec() -> bool {
        true
    }

    open spec fn mul_req(self, other: &'b HexColor) -> bool {
        true
    }

    open spec fn mul_spec(self, other: &'b HexColor) -> HexColor {
        scalar_times(*self as int, *other)
    }
}

impl core::ops::Add<HexColor> for i128 {
    type Output = HexColor;

    fn add(self, other: HexColor) -> (c: HexColor) {
        proof {
            lemma_scalar_add_commutes(other, self as int);
        }
        other + self
    }
}

impl vstd::std_specs::ops::AddSpecImpl<HexColor> for i128 {
    open spec fn obeys_add_spec() -> bool {
        true
    }

    open spec fn add_req(self, other: HexColor) -> bool {
        true
    }

    open spec fn add_spec(self, other: HexColor) -> HexColor {
        scalar_plus(self as int, other)
    }
}

impl<'a> core::ops::Add<&'a HexColor> for i128 {
    type Output = HexColor;

    fn add(self, other: &'a HexColor) -> (c: HexColor) {
        self + *other
    }
}

impl<'a> vstd::std_specs::ops::AddSpecImpl<&'a HexColor> for i128 {
    open spec fn obeys_add_spec() -> bool {
        true
    }

    open spec fn add_req(self, other: &'a HexColor) -> bool {
        true
    }

    open spec fn add_spec(self, other: &'a HexColor) -> HexColor {
        scalar_plus(self as int, *other)
    }
}

impl<'a> core::ops::Add<HexColor> for &'a i128 {
    type Output = HexColor;

    fn add(self, other: HexColor) -> (c: HexColor) {
        *self + other
    }
}

impl<'a> vstd::std_specs::ops::AddSpecImpl<HexColor> for &'a i128 {
    open spec fn obeys_add_spec() -> bool {
        true
    }

    open spec fn add_req(self, other: HexColor) -> bool {
        true
    }

    open spec fn add_spec(self, other: HexColor) -> HexColor {
        scalar_plus(*self as int, other)
    }
}

impl<'a, 'b> core::ops::Add<&'b HexColor> for &'a i128 {
    type Output = HexColor;

    fn add(self, other: &'b HexColor) -> (c: HexColor) {
        *self + *other
    }
}

impl<'a, 'b> vstd::std_specs::ops::AddSpecImpl<&'b HexColor> for &'a i128 {
    open spec fn obeys_add_spec() -> bool {
        true
    }

    open spec fn add_req(self, other: &'b HexColor) -> bool {
        true
    }

    open spec fn add_spec(self, other: &'b HexColor) -> HexColor {
        scalar_plus(*self as int, *other)
    }
}

impl core::ops::Sub<HexColor> for i128 {
    type Output = HexColor;

    fn sub(self, other: HexColor) -> (c: HexColor) {
        scalar_minus_color(self, other)
    }
}

impl vstd::std_specs::ops::SubSpecImpl<HexColor> for i128 {
    open spec fn obeys_sub_spec() -> bool {
        true
    }

    open spec fn sub_req(self, other: HexColor) -> bool {
        true
    }

    open spec fn sub_spec(self, other: HexColor) -> HexColor {
        scalar_minus(self as int, other)
    }
}

impl<'a> core::ops::Sub<&'a HexColor> for i128 {
    type Output = HexColor;

    fn sub(self, other: &'a HexColor) -> (c: HexColor) {
        self - *other
    }
}

impl<'a> vstd::std_specs::ops::SubSpecImpl<&'a HexColor> for i128 {
    open spec fn obeys_sub_spec() -> bool {
        true
    }

    open spec fn sub_req(self, other: &'a HexColor) -> bool {
        true
    }

    open spec fn sub_spec(self, other: &'a HexColor) -> HexColor {
        scalar_minus(self as int, *other)
    }
}

impl<'a> core::ops::Sub<HexColor> for &'a i128 {
    type Output = HexColor;

    fn sub(self, other: HexColor) -> (c: HexColor) {
        *self - other
    }
}

impl<'a> vstd::std_specs::ops::SubSpecImpl<HexColor> for &'a i128 {
    open spec fn obeys_sub_spec() -> bool {
        true
    }

    open spec fn sub_req(self, other: HexColor) -> bool {
        true
    }

    open spec fn sub_spec(self, other: HexColor) -> HexColor {
        scalar_minus(*self as int, other)
    }
}

impl<'a, 'b> core::ops::Sub<&'b HexColor> for &'a i128 {
    type Output = HexColor;

    fn sub(self, other: &'b HexColor) -> (c: HexColor) {
        *self - *other
    }
}

impl<'a, 'b> vstd::std_specs::ops::SubSpecImpl<&'b HexColor> for &'a i128 {
    open spec fn obeys_sub_spec() -> bool {
        true
    }

    open spec fn sub_req(self, other: &'b HexColor) -> bool {
        true
    }

    open spec fn sub_spec(self, other: &'b HexColor) -> HexColor {
        scalar_minus(*self as int, *other)
    }
}

impl core::ops::Mul<HexColor> for i128 {
    type Output = HexColor;

    fn mul(self, other: HexColor) -> (c: HexColor) {
        proof {
            lemma_scalar_mul_commutes(other, self as int);
        }
        other * self
    }
}

impl vstd::std_specs::ops::MulSpecImpl<HexColor> for i128 {
    open spec fn obeys_mul_spec() -> bool {
        true
    }

    open spec fn mul_req(self, other: HexColor) -> bool {
        true
    }

    open spec fn mul_spec(self, other: HexColor) -> HexColor {
        scalar_times(self as int, other)
    }
}

impl<'a> core::ops::Mul<&'a HexColor> for i128 {
    type Output = HexColor;

    fn mul(self, other: &'a HexColor) -> (c: HexColor) {
        self * *other
    }
}

impl<'a> vstd::std_specs::ops::MulSpecImpl<&'a HexColor> for i128 {
    open spec fn obeys_mul_spec() -> bool {
        true
    }

    open spec fn mul_req(self, other: &'a HexColor) -> bool {
        true
    }

    open spec fn mul_spec(self, other: &'a HexColor) -> HexColor {
        scalar_times(self as int, *other)
    }
}

impl<'a> core::ops::Mul<HexColor> for &'a i128 {
    type Output = HexColor;

    fn mul(self, other: HexColor) -> (c: HexColor) {
        *self * other
    }
}

impl<'a> vstd::std_specs::ops::MulSpecImpl<HexColor> for &'a i128 {
    open spec fn obeys_mul_spec() -> bool {
        true
    }

    open spec fn mul_req(self, other: HexColor) -> bool {
        true
    }

    open spec fn mul_spec(self, other: HexColor) -> HexColor {
        scalar_times(*self as int, other)
    }
}

impl<'a, 'b> core::ops::Mul<&'b HexColor> for &'a i128 {
    type Output = HexColor;

    fn mul(self, other: &'b HexColor) -> (c: HexColor) {
        *self * *other
    }
}

impl<'a, 'b> vstd::std_specs::ops::MulSpecImpl<&'b HexColor> for &'a i128 {
    open spec fn obeys_mul_spec() -> bool {
        true
    }

    open spec fn mul_req(self, other: &'b HexColor) -> bool {
        true
    }

    open spec fn mul_spec(self, other: &'b HexColor) -> HexColor {
        scalar_times(*self as int, *other)
    }
}

impl core::ops::Add<HexColor> for isize {
    type Output = HexColor;

    fn add(self, other: HexColor) -> (c: HexColor) {
        proof {
            lemma_scalar_add_commutes(other, self as int);
        }
        other + self
    }
}

impl vstd::std_specs::ops::AddSpecImpl<HexColor> for isize {
    open spec fn obeys_add_spec() -> bool {
        true
    }

    open spec fn add_req(self, other: HexColor) -> bool {
        true
    }

    open spec fn add_spec(self, other: HexColor) -> HexColor {
        scalar_plus(self as int, other)
    }
}

impl<'a> core::ops::Add<&'a HexColor> for isize {
    type Output = HexColor;

    fn add(self, other: &'a HexColor) -> (c: HexColor) {
        self + *other
    }
}

impl<'a> vstd::std_specs::ops::AddSpecImpl<&'a HexColor> for isize {
    open spec fn obeys_add_spec() -> bool {
        true
    }

    open spec fn add_req(self, other: &'a HexColor) -> bool {
        true
    }

    open spec fn add_spec(self, other: &'a HexColor) -> HexColor {
        scalar_plus(self as int, *other)
    }
}

impl<'a> core::ops::Add<HexColor> for &'a isize {
    type Output = HexColor;

    fn add(self, other: HexColor) -> (c: HexColor) {
        *self + other
    }
}

impl<'a> vstd::std_specs::ops::AddSpecImpl<HexColor> for &'a isize {
    open spec fn obeys_add_spec() -> bool {
        true
    }

    open spec fn add_req(self, other: HexColor) -> bool {
        true
    }

    open spec fn add_spec(self, other: HexColor) -> HexColor {
        scalar_plus(*self as int, other)
    }
}

impl<'a, 'b> core::ops::Add<&'b HexColor> for &'a isize {
    type Output = HexColor;

    fn add(self, other: &'b HexColor) -> (c: HexColor) {
        *self + *other
    }
}

impl<'a, 'b> vstd::std_specs::ops::AddSpecImpl<&'b HexColor> for &'a isize {
    open spec fn obeys_add_spec() -> bool {
        true
    }

    open spec fn add_req(self, other: &'b HexColor) -> bool {
        true
    }

    open spec fn add_spec(self, other: &'b HexColor) -> HexColor {
        scalar_plus(*self as int, *other)
    }
}

impl core::ops::Sub<HexColor> for isize {
    type Output = HexColor;

    fn sub(self, other: HexColor) -> (c: HexColor) {
        scalar_minus_color(self, other)
    }
}

impl vstd::std_specs::ops::SubSpecImpl<HexColor> for isize {
    open spec fn obeys_sub_spec() -> bool {
        true
    }

    open spec fn sub_req(self, other: HexColor) -> bool {
        true
    }

    open spec fn sub_spec(self, other: HexColor) -> HexColor {
        scalar_minus(self as int, other)
    }
}

impl<'a> core::ops::Sub<&'a HexColor> for isize {
    type Output = HexColor;

    fn sub(self, other: &'a HexColor) -> (c: HexColor) {
        self - *other
    }
}

impl<'a> vstd::std_specs::ops::SubSpecImpl<&'a HexColor> for isize {
    open spec fn obeys_sub_spec() -> bool {
        true
    }

    open spec fn sub_req(self, other: &'a HexColor) -> bool {
        true
    }

    open spec fn sub_spec(self, other: &'a HexColor) -> HexColor {
        scalar_minus(self as int, *other)
    }
}

impl<'a> core::ops::Sub<HexColor> for &'a isize {
    type Output = HexColor;

    fn sub(self, other: HexColor) -> (c: HexColor) {
        *self - other
    }
}

impl<'a> vstd::std_specs::ops::SubSpecImpl<HexColor> for &'a isize {
    open spec fn obeys_sub_spec() -> bool {
        true
    }

    open spec fn sub_req(self, other: HexColor) -> bool {
        true
    }

    open spec fn sub_spec(self, other: HexColor) -> HexColor {
        scalar_minus(*self as int, other)
    }
}

impl<'a, 'b> core::ops::Sub<&'b HexColor> for &'a isize {
    type Output = HexColor;

    fn sub(self, other: &'b HexColor) -> (c: HexColor) {
        *self - *other
    }
}

impl<'a, 'b> vstd::std_specs::ops::SubSpecImpl<&'b HexColor> for &'a isize {
    open spec fn obeys_sub_spec() -> bool {
        true
    }

    open spec fn sub_req(self, other: &'b HexColor) -> bool {
        true
    }

    open spec fn sub_spec(self, other: &'b HexColor) -> HexColor {
        scalar_minus(*self as int, *other)
    }
}

impl core::ops::Mul<HexColor> for isize {
    type Output = HexColor;

    fn mul(self, other: HexColor) -> (c: HexColor) {
        proof {
            lemma_scalar_mul_commutes(other, self as int);
        }
        other * self
    }
}

impl vstd::std_specs::ops::MulSpecImpl<HexColor> for isize {
    open spec fn obeys_mul_spec() -> bool {
        true
    }

    open spec fn mul_req(self, other: HexColor) -> bool {
        true
    }

    open spec fn mul_spec(self, other: HexColor) -> HexColor {
        scalar_times(self as int, other)
    }
}

impl<'a> core::ops::Mul<&'a HexColor> for isize {
    type Output = HexColor;

    fn mul(self, other: &'a HexColor) -> (c: HexColor) {
        self * *other
    }
}

impl<'a> vstd::std_specs::ops::MulSpecImpl<&'a HexColor> for isize {
    open spec fn obeys_mul_spec() -> bool {
        true
    }

    open spec fn mul_req(self, other: &'a HexColor) -> bool {
        true
    }

    open spec fn mul_spec(self, other: &'a HexColor) -> HexColor {
        scalar_times(self as int, *other)
    }
}

impl<'a> core::ops::Mul<HexColor> for &'a isize {
    type Output = HexColor;

    fn mul(self, other: HexColor) -> (c: HexColor) {
        *self * other
    }
}

impl<'a> vstd::std_specs::ops::MulSpecImpl<HexColor> for &'a isize {
    open spec fn obeys_mul_spec() -> bool {
        true
    }

    open spec fn mul_req(self, other: HexColor) -> bool {
        true
    }

    open spec fn mul_spec(self, other: HexColor) -> HexColor {
        scalar_times(*self as int, other)
    }
}

impl<'a, 'b> core::ops::Mul<&'b HexColor> for &'a isize {
    type Output = HexColor;

    fn mul(self, other: &'b HexColor) -> (c: HexColor) {
        *self * *other
    }
}

impl<'a, 'b> vstd::std_specs::ops::MulSpecImpl<&'b HexColor> for &'a isize {
    open spec fn obeys_mul_spec() -> bool {
        true
    }

    open spec fn mul_req(self, other: &'b HexColor) -> bool {
        true
    }

    open spec fn mul_spec(self, other: &'b HexColor) -> HexColor {
        scalar_times(*self as int, *other)
    }
}

} // verus!
