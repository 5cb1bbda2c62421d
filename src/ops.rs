use vstd::prelude::*;

use crate::color::HexColor;
use crate::scalar::{bounded_scalar, Scalar};

verus! {

/// `v` held to the byte range `[0, 255]`.
pub open spec fn clamp_byte(v: int) -> u8 {
    if v < 0 {
        0
    } else if v > 255 {
        255
    } else {
        v as u8
    }
}

/// Saturating addition of two bytes.
pub open spec fn sat_add(x: u8, y: u8) -> u8 {
    clamp_byte(x + y)
}

/// Saturating subtraction of two bytes.
pub open spec fn sat_sub(x: u8, y: u8) -> u8 {
    clamp_byte(x - y)
}

/// How the alpha of `left op right` follows from the operands' alphas: both
/// present combine with `op`; an absent right alpha leaves the left one as it
/// is; an absent left alpha stays absent.
pub open spec fn alpha_rule(left: Option<u8>, right: Option<u8>, op: spec_fn(u8, u8) -> u8) -> Option<u8> {
    match (left, right) {
        (Some(x), Some(y)) => Some(op(x, y)),
        (Some(x), None) => Some(x),
        (None, _) => None,
    }
}

/// The channel-wise saturating sum of two colors.
pub open spec fn sum_colors(l: HexColor, r: HexColor) -> HexColor {
    HexColor {
        r: sat_add(l.r, r.r),
        g: sat_add(l.g, r.g),
        b: sat_add(l.b, r.b),
        a: alpha_rule(l.a, r.a, |x: u8, y: u8| sat_add(x, y)),
    }
}

/// The channel-wise saturating difference of two colors.
pub open spec fn difference_colors(l: HexColor, r: HexColor) -> HexColor {
    HexColor {
        r: sat_sub(l.r, r.r),
        g: sat_sub(l.g, r.g),
        b: sat_sub(l.b, r.b),
        a: alpha_rule(l.a, r.a, |x: u8, y: u8| sat_sub(x, y)),
    }
}

/// `f` applied to each channel of `c`, and to its alpha where there is one.
pub open spec fn map_channels(c: HexColor, f: spec_fn(u8) -> u8) -> HexColor {
    HexColor {
        r: f(c.r),
        g: f(c.g),
        b: f(c.b),
        a: match c.a {
            Some(x) => Some(f(x)),
            None => None,
        },
    }
}

/// `x / n` rounded toward zero, for `n != 0`.
pub open spec fn channel_quotient(x: u8, n: int) -> int {
    if n > 0 {
        x as int / n
    } else {
        -(x as int / -n)
    }
}

/// `c + n`: `n` added to each channel, clamped to a byte.
pub open spec fn plus_scalar(c: HexColor, n: int) -> HexColor {
    map_channels(c, |x: u8| clamp_byte(x + n))
}

/// `c - n`: `n` subtracted from each channel, clamped to a byte.
pub open spec fn minus_scalar(c: HexColor, n: int) -> HexColor {
    map_channels(c, |x: u8| clamp_byte(x - n))
}

/// `c * n`: each channel multiplied by `n`, clamped to a byte.
pub open spec fn times_scalar(c: HexColor, n: int) -> HexColor {
    map_channels(c, |x: u8| clamp_byte(x * n))
}

/// `c / n`: each channel divided by `n`, rounded toward zero and clamped to a
/// byte. Division by zero saturates: every channel becomes 255.
pub open spec fn over_scalar(c: HexColor, n: int) -> HexColor {
    map_channels(
        c,
        |x: u8|
            if n == 0 {
                255u8
            } else {
                clamp_byte(channel_quotient(x, n))
            },
    )
}

/// `n + c`: each channel added to `n`, clamped to a byte.
pub open spec fn scalar_plus(n: int, c: HexColor) -> HexColor {
    map_channels(c, |x: u8| clamp_byte(n + x))
}

/// `n - c`: each channel subtracted from `n`, clamped to a byte.
pub open spec fn scalar_minus(n: int, c: HexColor) -> HexColor {
    map_channels(c, |x: u8| clamp_byte(n - x))
}

/// `n * c`: `n` multiplied by each channel, clamped to a byte.
pub open spec fn scalar_times(n: int, c: HexColor) -> HexColor {
    map_channels(c, |x: u8| clamp_byte(n * x))
}

/// Combines two optional alphas: both present combine with `op`; an absent
/// right alpha leaves the left one as it is; an absent left alpha stays absent.
pub fn alpha_op<F: FnOnce(u8, u8) -> u8>(self_a: Option<u8>, other_a: Option<u8>, op: F) -> (r: Option<u8>)
    requires
        forall|x: u8, y: u8| #[trigger] op.requires((x, y)),
    ensures
        other_a is None ==> r == self_a,
        self_a is None ==> r is None,
        self_a is Some && other_a is Some ==> r is Some && op.ensures(
            (self_a->Some_0, other_a->Some_0),
            r->Some_0,
        ),
{
    match (self_a, other_a) {
        (Some(x), Some(y)) => Some(op(x, y)),
        (Some(x), None) => Some(x),
        (None, _) => None,
    }
}

fn saturating_add_bytes(x: u8, y: u8) -> (v: u8)
    ensures
        v == sat_add(x, y),
{
    x.saturating_add(y)
}

fn saturating_sub_bytes(x: u8, y: u8) -> (v: u8)
    ensures
        v == sat_sub(x, y),
{
    x.saturating_sub(y)
}

fn clamp_to_byte(v: i32) -> (r: u8)
    ensures
        r == clamp_byte(v as int),
{
    if v < 0 {
        0
    } else if v > 255 {
        255
    } else {
        v as u8
    }
}

fn map_color<F: Fn(u8) -> u8>(c: HexColor, f: F) -> (r: HexColor)
    requires
        forall|x: u8| #[trigger] f.requires((x,)),
    ensures
        f.ensures((c.r,), r.r),
        f.ensures((c.g,), r.g),
        f.ensures((c.b,), r.b),
        c.a is None ==> r.a is None,
        c.a matches Some(x) ==> r.a matches Some(y) && f.ensures((x,), y),
{
    let a = match c.a {
        Some(x) => Some(f(x)),
        None => None,
    };
    HexColor { r: f(c.r), g: f(c.g), b: f(c.b), a }
}

impl HexColor {
    fn plus(self, n: i32) -> (r: HexColor)
        requires
            -1024 <= n <= 1024,
        ensures
            r == plus_scalar(self, n as int),
    {
        map_color(self, |x: u8| -> (y: u8)
            ensures
                y == clamp_byte(x + n),
            { clamp_to_byte(x as i32 + n) })
    }

    fn minus(self, n: i32) -> (r: HexColor)
        requires
            -1024 <= n <= 1024,
        ensures
            r == minus_scalar(self, n as int),
    {
        map_color(self, |x: u8| -> (y: u8)
            ensures
                y == clamp_byte(x - n),
            { clamp_to_byte(x as i32 - n) })
    }

    fn times(self, n: i32) -> (r: HexColor)
        requires
            -1024 <= n <= 1024,
        ensures
            r == times_scalar(self, n as int),
    {
        map_color(self, |x: u8| -> (y: u8)
            ensures
                y == clamp_byte(x * n),
            {
                assert(-1024 * 255 <= x * n <= 1024 * 255) by (nonlinear_arith)
                    requires
                        -1024 <= n <= 1024,
                        0 <= x <= 255,
                ;
                clamp_to_byte(x as i32 * n)
            })
    }

    fn over(self, n: i32) -> (r: HexColor)
        requires
            -1024 <= n <= 1024,
        ensures
            r == over_scalar(self, n as int),
    {
        map_color(self, |x: u8| -> (y: u8)
            ensures
                y == (if n == 0 {
                    255u8
                } else {
                    clamp_byte(channel_quotient(x, n as int))
                }),
            {
                if n == 0 {
                    255
                } else if n > 0 {
                    clamp_to_byte(x as i32 / n)
                } else {
                    clamp_to_byte(-(x as i32 / -n))
                }
            })
    }

    fn subtracted_from(self, n: i32) -> (r: HexColor)
        requires
            -1024 <= n <= 1024,
        ensures
            r == scalar_minus(n as int, self),
    {
        map_color(self, |x: u8| -> (y: u8)
            ensures
                y == clamp_byte(n - x),
            { clamp_to_byte(n - x as i32) })
    }
}

proof fn lemma_channel_bounded(x: u8, n: int)
    ensures
        clamp_byte(x + bounded_scalar(n)) == clamp_byte(x + n),
        clamp_byte(x - bounded_scalar(n)) == clamp_byte(x - n),
        clamp_byte(bounded_scalar(n) - x) == clamp_byte(n - x),
        clamp_byte(x * bounded_scalar(n)) == clamp_byte(x * n),
        n != 0 ==> bounded_scalar(n) != 0 && clamp_byte(channel_quotient(x, bounded_scalar(n)))
            == clamp_byte(channel_quotient(x, n)),
{
    let k = bounded_scalar(n);
    if n > 1024 {
        assert(x * k >= 256 || x == 0) by (nonlinear_arith)
            requires
                k == 1024,
        ;
        assert(x * n >= 256 || x == 0) by (nonlinear_arith)
            requires
                n > 1024,
        ;
        assert(x == 0 ==> x * n == 0 && x * k == 0);
        assert(x as int / k == 0) by (nonlinear_arith)
            requires
                k == 1024,
                0 <= x <= 255,
        ;
        assert(x as int / n == 0) by (nonlinear_arith)
            requires
                n > 1024,
                0 <= x <= 255,
        ;
    } else if n < -1024 {
        assert(x * k <= 0) by (nonlinear_arith)
            requires
                k == -1024,
                x >= 0,
        ;
        assert(x * n <= 0) by (nonlinear_arith)
            requires
                n < -1024,
                x >= 0,
        ;
        assert(x as int / -k == 0) by (nonlinear_arith)
            requires
                k == -1024,
                0 <= x <= 255,
        ;
        assert(x as int / -n == 0) by (nonlinear_arith)
            requires
                n < -1024,
                0 <= x <= 255,
        ;
    }
}

proof fn lemma_color_bounded(c: HexColor, n: int)
    ensures
        plus_scalar(c, bounded_scalar(n)) == plus_scalar(c, n),
        minus_scalar(c, bounded_scalar(n)) == minus_scalar(c, n),
        times_scalar(c, bounded_scalar(n)) == times_scalar(c, n),
        over_scalar(c, bounded_scalar(n)) == over_scalar(c, n),
        scalar_minus(bounded_scalar(n), c) == scalar_minus(n, c),
{
    lemma_channel_bounded(c.r, n);
    lemma_channel_bounded(c.g, n);
    lemma_channel_bounded(c.b, n);
    if let Some(x) = c.a {
        lemma_channel_bounded(x, n);
    }
}

/// Channel-wise saturating sum; the alpha follows [`alpha_op`].
impl core::ops::Add for HexColor {
    type Output = HexColor;

    fn add(self, other: HexColor) -> (c: HexColor) {
        let a = alpha_op(self.a, other.a, saturating_add_bytes);
        HexColor {
            r: self.r.saturating_add(other.r),
            g: self.g.saturating_add(other.g),
            b: self.b.saturating_add(other.b),
            a,
        }
    }
}

impl vstd::std_specs::ops::AddSpecImpl for HexColor {
    open spec fn obeys_add_spec() -> bool {
        true
    }

    open spec fn add_req(self, other: HexColor) -> bool {
        true
    }

    open spec fn add_spec(self, other: HexColor) -> HexColor {
        sum_colors(self, other)
    }
}

/// Channel-wise saturating difference; the alpha follows [`alpha_op`].
impl core::ops::Sub for HexColor {
    type Output = HexColor;

    fn sub(self, other: HexColor) -> (c: HexColor) {
        let a = alpha_op(self.a, other.a, saturating_sub_bytes);
        HexColor {
            r: self.r.saturating_sub(other.r),
            g: self.g.saturating_sub(other.g),
            b: self.b.saturating_sub(other.b),
            a,
        }
    }
}

impl vstd::std_specs::ops::SubSpecImpl for HexColor {
    open spec fn obeys_sub_spec() -> bool {
        true
    }

    open spec fn sub_req(self, other: HexColor) -> bool {
        true
    }

    open spec fn sub_spec(self, other: HexColor) -> HexColor {
        difference_colors(self, other)
    }
}

impl core::ops::AddAssign for HexColor {
    fn add_assign(&mut self, other: HexColor)
        ensures
            *final(self) == sum_colors(*old(self), other),
    {
        *self = *self + other;
    }
}

impl<'a> core::ops::Add<&'a HexColor> for HexColor {
    type Output = HexColor;

    fn add(self, other: &'a HexColor) -> (c: HexColor) {
        self + *other
    }
}

impl<'a> vstd::std_specs::ops::AddSpecImpl<&'a HexColor> for HexColor {
    open spec fn obeys_add_spec() -> bool {
        true
    }

    open spec fn add_req(self, other: &'a HexColor) -> bool {
        true
    }

    open spec fn add_spec(self, other: &'a HexColor) -> HexColor {
        sum_colors(self, *other)
    }
}

impl<'a> core::ops::Add<HexColor> for &'a HexColor {
    type Output = HexColor;

    fn add(self, other: HexColor) -> (c: HexColor) {
        *self + other
    }
}

impl<'a> vstd::std_specs::ops::AddSpecImpl<HexColor> for &'a HexColor {
    open spec fn obeys_add_spec() -> bool {
        true
    }

    open spec fn add_req(self, other: HexColor) -> bool {
        true
    }

    open spec fn add_spec(self, other: HexColor) -> HexColor {
        sum_colors(*self, other)
    }
}

impl<'a, 'b> core::ops::Add<&'b HexColor> for &'a HexColor {
    type Output = HexColor;

    fn add(self, other: &'b HexColor) -> (c: HexColor) {
        *self + *other
    }
}

impl<'a, 'b> vstd::std_specs::ops::AddSpecImpl<&'b HexColor> for &'a HexColor {
    open spec fn obeys_add_spec() -> bool {
        true
    }

    open spec fn add_req(self, other: &'b HexColor) -> bool {
        true
    }

    open spec fn add_spec(self, other: &'b HexColor) -> HexColor {
        sum_colors(*self, *other)
    }
}

impl<'a> core::ops::AddAssign<&'a HexColor> for HexColor {
    fn add_assign(&mut self, other: &'a HexColor)
        ensures
            *final(self) == sum_colors(*old(self), *other),
    {
        *self = *self + *other;
    }
}

impl<'a> core::ops::Sub<&'a HexColor> for HexColor {
    type Output = HexColor;

    fn sub(self, other: &'a HexColor) -> (c: HexColor) {
        self - *other
    }
}

impl<'a> vstd::std_specs::ops::SubSpecImpl<&'a HexColor> for HexColor {
    open spec fn obeys_sub_spec() -> bool {
        true
    }

    open spec fn sub_req(self, other: &'a HexColor) -> bool {
        true
    }

    open spec fn sub_spec(self, other: &'a HexColor) -> HexColor {
        difference_colors(self, *other)
    }
}

impl<'a> core::ops::Sub<HexColor> for &'a HexColor {
    type Output = HexColor;

    fn sub(self, other: HexColor) -> (c: HexColor) {
        *self - other
    }
}

impl<'a> vstd::std_specs::ops::SubSpecImpl<HexColor> for &'a HexColor {
    open spec fn obeys_sub_spec() -> bool {
        true
    }

    open spec fn sub_req(self, other: HexColor) -> bool {
        true
    }

    open spec fn sub_spec(self, other: HexColor) -> HexColor {
        difference_colors(*self, other)
    }
}

impl<'a, 'b> core::ops::Sub<&'b HexColor> for &'a HexColor {
    type Output = HexColor;

    fn sub(self, other: &'b HexColor) -> (c: HexColor) {
        *self - *other
    }
}

impl<'a, 'b> vstd::std_specs::ops::SubSpecImpl<&'b HexColor> for &'a HexColor {
    open spec fn obeys_sub_spec() -> bool {
        true
    }

    open spec fn sub_req(self, other: &'b HexColor) -> bool {
        true
    }

    open spec fn sub_spec(self, other: &'b HexColor) -> HexColor {
        difference_colors(*self, *other)
    }
}

impl core::ops::SubAssign for HexColor {
    fn sub_assign(&mut self, other: HexColor)
        ensures
            *final(self) == difference_colors(*old(self), other),
    {
        *self = *self - other;
    }
}

impl<'a> core::ops::SubAssign<&'a HexColor> for HexColor {
    fn sub_assign(&mut self, other: &'a HexColor)
        ensures
            *final(self) == difference_colors(*old(self), *other),
    {
        *self = *self - *other;
    }
}

/// Adds an integer to each present channel, clamping to a byte.
impl<T: Scalar> core::ops::Add<T> for HexColor {
    type Output = HexColor;

    fn add(self, other: T) -> (c: HexColor) {
        proof {
            lemma_color_bounded(self, other.value());
        }
        self.plus(other.bounded())
    }
}

impl<T: Scalar> vstd::std_specs::ops::AddSpecImpl<T> for HexColor {
    open spec fn obeys_add_spec() -> bool {
        true
    }

    open spec fn add_req(self, other: T) -> bool {
        true
    }

    open spec fn add_spec(self, other: T) -> HexColor {
        plus_scalar(self, other.value())
    }
}

impl<'a, T: Scalar> core::ops::Add<T> for &'a HexColor {
    type Output = HexColor;

    fn add(self, other: T) -> (c: HexColor) {
        *self + other
    }
}

impl<'a, T: Scalar> vstd::std_specs::ops::AddSpecImpl<T> for &'a HexColor {
    open spec fn obeys_add_spec() -> bool {
        true
    }

    open spec fn add_req(self, other: T) -> bool {
        true
    }

    open spec fn add_spec(self, other: T) -> HexColor {
        plus_scalar(*self, other.value())
    }
}

impl<T: Scalar> core::ops::AddAssign<T> for HexColor {
    fn add_assign(&mut self, other: T)
        ensures
            *final(self) == plus_scalar(*old(self), other.value()),
    {
        *self = *self + other;
    }
}

/// Subtracts an integer from each present channel, clamping to a byte.
impl<T: Scalar> core::ops::Sub<T> for HexColor {
    type Output = HexColor;

    fn sub(self, other: T) -> (c: HexColor) {
        proof {
            lemma_color_bounded(self, other.value());
        }
        self.minus(other.bounded())
    }
}

impl<T: Scalar> vstd::std_specs::ops::SubSpecImpl<T> for HexColor {
    open spec fn obeys_sub_spec() -> bool {
        true
    }

    open spec fn sub_req(self, other: T) -> bool {
        true
    }

    open spec fn sub_spec(self, other: T) -> HexColor {
        minus_scalar(self, other.value())
    }
}

impl<'a, T: Scalar> core::ops::Sub<T> for &'a HexColor {
    type Output = HexColor;

    fn sub(self, other: T) -> (c: HexColor) {
        *self - other
    }
}

impl<'a, T: Scalar> vstd::std_specs::ops::SubSpecImpl<T> for &'a HexColor {
    open spec fn obeys_sub_spec() -> bool {
        true
    }

    open spec fn sub_req(self, other: T) -> bool {
        true
    }

    open spec fn sub_spec(self, other: T) -> HexColor {
        minus_scalar(*self, other.value())
    }
}

impl<T: Scalar> core::ops::SubAssign<T> for HexColor {
    fn sub_assign(&mut self, other: T)
        ensures
            *final(self) == minus_scalar(*old(self), other.value()),
    {
        *self = *self - other;
    }
}

/// Multiplies each present channel by an integer, clamping to a byte.
impl<T: Scalar> core::ops::Mul<T> for HexColor {
    type Output = HexColor;

    fn mul(self, other: T) -> (c: HexColor) {
        proof {
            lemma_color_bounded(self, other.value());
        }
        self.times(other.bounded())
    }
}

impl<T: Scalar> vstd::std_specs::ops::MulSpecImpl<T> for HexColor {
    open spec fn obeys_mul_spec() -> bool {
        true
    }

    open spec fn mul_req(self, other: T) -> bool {
        true
    }

    open spec fn mul_spec(self, other: T) -> HexColor {
        times_scalar(self, other.value())
    }
}

impl<'a, T: Scalar> core::ops::Mul<T> for &'a HexColor {
    type Output = HexColor;

    fn mul(self, other: T) -> (c: HexColor) {
        *self * other
    }
}

impl<'a, T: Scalar> vstd::std_specs::ops::MulSpecImpl<T> for &'a HexColor {
    open spec fn obeys_mul_spec() -> bool {
        true
    }

    open spec fn mul_req(self, other: T) -> bool {
        true
    }

    open spec fn mul_spec(self, other: T) -> HexColor {
        times_scalar(*self, other.value())
    }
}

impl<T: Scalar> core::ops::MulAssign<T> for HexColor {
    fn mul_assign(&mut self, other: T)
        ensures
            *final(self) == times_scalar(*old(self), other.value()),
    {
        *self = *self * other;
    }
}

/// Divides each present channel by an integer, rounding toward zero and
/// clamping to a byte. Division by zero saturates every present channel to 255.
impl<T: Scalar> core::ops::Div<T> for HexColor {
    type Output = HexColor;

    fn div(self, other: T) -> (c: HexColor) {
        proof {
            lemma_color_bounded(self, other.value());
        }
        self.over(other.bounded())
    }
}

impl<T: Scalar> vstd::std_specs::ops::DivSpecImpl<T> for HexColor {
    open spec fn obeys_div_spec() -> bool {
        true
    }

    open spec fn div_req(self, other: T) -> bool {
        true
    }

    open spec fn div_spec(self, other: T) -> HexColor {
        over_scalar(self, other.value())
    }
}

impl<'a, T: Scalar> core::ops::Div<T> for &'a HexColor {
    type Output = HexColor;

    fn div(self, other: T) -> (c: HexColor) {
        *self / other
    }
}

impl<'a, T: Scalar> vstd::std_specs::ops::DivSpecImpl<T> for &'a HexColor {
    open spec fn obeys_div_spec() -> bool {
        true
    }

    open spec fn div_req(self, other: T) -> bool {
        true
    }

    open spec fn div_spec(self, other: T) -> HexColor {
        over_scalar(*self, other.value())
    }
}

impl<T: Scalar> core::ops::DivAssign<T> for HexColor {
    fn div_assign(&mut self, other: T)
        ensures
            *final(self) == over_scalar(*old(self), other.value()),
    {
        *self = *self / other;
    }
}

/// The alpha of a sum or a difference of two colors: two present alphas
/// combine by the same saturating operation as the other channels; a left
/// alpha with no right one is kept as it is; with no left alpha the result has
/// none, whatever the right one.
pub proof fn lemma_alpha_propagation(l: HexColor, r: HexColor)
    ensures
        (l.a, r.a) matches (Some(x), Some(y)) ==> sum_colors(l, r).a == Some(sat_add(x, y))
            && difference_colors(l, r).a == Some(sat_sub(x, y)),
        (l.a, r.a) matches (Some(x), None) ==> sum_colors(l, r).a == Some(x) && difference_colors(
            l,
            r,
        ).a == Some(x),
        l.a is None ==> sum_colors(l, r).a is None && difference_colors(l, r).a is None,
{
}

/// Adding a scalar to a color gives the same color whichever side of `+` the
/// scalar stands on.
pub proof fn lemma_scalar_add_commutes(c: HexColor, n: int)
    ensures
        plus_scalar(c, n) == scalar_plus(n, c),
{
}

/// Multiplying a color by a scalar gives the same color whichever side of `*`
/// the scalar stands on.
pub proof fn lemma_scalar_mul_commutes(c: HexColor, n: int)
    ensures
        times_scalar(c, n) == scalar_times(n, c),
{
}

/// `n - c`, the channels of `c` each subtracted from the scalar `n`.
pub(crate) fn scalar_minus_color<T: Scalar>(n: T, c: HexColor) -> (r: HexColor)
    ensures
        r == scalar_minus(n.value(), c),
{
    proof {
        lemma_color_bounded(c, n.value());
    }
    c.subtracted_from(n.bounded())
}

} // verus!
