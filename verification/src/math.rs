//! Exact linear interpolation of 8-bit channel values.
//!
//! The interpolation parameter is a rational number, so every intermediate
//! value is exact; only the final conversion to a byte loses information, by
//! dropping the fractional part and clamping to `0..=255`.

use vstd::prelude::*;

verus! {

/// The rational number `num / den`, used as an interpolation parameter.
#[derive(Clone, Copy, Debug, PartialEq, Eq, Structural)]
pub struct Ratio {
    pub num: i64,
    pub den: u64,
}

impl Ratio {
    /// A ratio is well formed when its denominator is positive.
    pub open spec fn wf(self) -> bool {
        self.den > 0
    }

    /// Builds `num / den`, or nothing when the denominator is zero.
    pub fn new(num: i64, den: u64) -> (r: Option<Ratio>)
        ensures
            r == (if den == 0 {
                None
            } else {
                Some(Ratio { num, den })
            }),
    {
        if den == 0 {
            None
        } else {
            Some(Ratio { num, den })
        }
    }
}

/// The quotient `n / d` with its fractional part dropped (rounded toward zero).
pub open spec fn truncated_quotient(n: int, d: int) -> int
    recommends
        d > 0,
{
    if n >= 0 {
        n / d
    } else {
        -((-n) / d)
    }
}

/// The byte nearest to `x`: values below 0 become 0, values above 255 become 255.
pub open spec fn saturate_to_byte(x: int) -> u8 {
    if x <= 0 {
        0u8
    } else if x >= 255 {
        255u8
    } else {
        x as u8
    }
}

/// The byte form of `start + step * t`: the exact value, truncated toward
/// zero and then clamped to the byte range.
pub open spec fn interpolated(start: int, step: int, t: Ratio) -> u8
    recommends
        t.wf(),
{
    saturate_to_byte(truncated_quotient(start * t.den + step * t.num, t.den as int))
}

/// Conventional interpolation, `v1 + (v2 - v1) * t`: moves from `v1` toward
/// `v2` as `t` grows from 0 to 1.
pub open spec fn forward_lerp(v1: u8, v2: u8, t: Ratio) -> u8
    recommends
        t.wf(),
{
    interpolated(v1 as int, v2 - v1, t)
}

/// Reversed interpolation, `v1 + (v1 - v2) * t`: moves from `v1` away from
/// `v2` as `t` grows.
pub open spec fn reverse_lerp(v1: u8, v2: u8, t: Ratio) -> u8
    recommends
        t.wf(),
{
    interpolated(v1 as int, v1 - v2, t)
}

/// At parameter zero an interpolation gives its first value, whatever the
/// second is.
pub proof fn lemma_lerp_at_zero(v1: u8, v2: u8, t: Ratio)
    requires
        t.wf(),
        t.num == 0,
    ensures
        reverse_lerp(v1, v2, t) == v1,
        forward_lerp(v1, v2, t) == v1,
{
    assert((v1 * t.den) / (t.den as int) == v1) by (nonlinear_arith)
        requires
            t.den > 0,
    ;
}

/// Between a value and itself an interpolation gives that value, at every
/// parameter.
pub proof fn lemma_lerp_between_equal(v: u8, t: Ratio)
    requires
        t.wf(),
    ensures
        reverse_lerp(v, v, t) == v,
        forward_lerp(v, v, t) == v,
{
    assert((v * t.den) / (t.den as int) == v) by (nonlinear_arith)
        requires
            t.den > 0,
    ;
}

/// Computes `start + step * t` as a byte. The sum is formed over the common
/// denominator in 128 bits, where it cannot overflow.
fn interpolate(start: u8, step: i16, t: Ratio) -> (r: u8)
    requires
        t.wf(),
        -255 <= step <= 255,
    ensures
        r == interpolated(start as int, step as int, t),
{
    let den: i128 = t.den as i128;
    let num: i128 = t.num as i128;
    assert(0 <= start * den <= 255 * 0xffff_ffff_ffff_ffff) by (nonlinear_arith)
        requires
            0 <= start <= 255,
            0 < den <= 0xffff_ffff_ffff_ffff,
    ;
    assert(-255 * 0x8000_0000_0000_0000 <= step * num <= 255 * 0x8000_0000_0000_0000)
        by (nonlinear_arith)
        requires
            -255 <= step <= 255,
            -0x8000_0000_0000_0000 <= num < 0x8000_0000_0000_0000,
    ;
    let scaled: i128 = (start as i128) * den + (step as i128) * num;
    if scaled <= 0 {
        0
    } else {
        let q: i128 = scaled / den;
        if q >= 255 {
            255
        } else {
            q as u8
        }
    }
}

/// Interpolation of a value toward (or away from) another by a parameter of
/// type `T`.
pub trait Lerp<T>: Sized {
    /// The parameters for which the interpolation is defined.
    spec fn lerp_defined(t: T) -> bool;

    /// The interpolated value.
    spec fn lerp_value(&self, other: Self, t: T) -> Self;

    /// Interpolates between `self` and `other` at parameter `t`.
    fn lerp(&self, other: Self, t: T) -> (r: Self)
        requires
            Self::lerp_defined(t),
        ensures
            r == self.lerp_value(other, t),
    ;
}

/// Bytes interpolate by the reversed formula `v1 + (v1 - v2) * t`.
impl Lerp<Ratio> for u8 {
    open spec fn lerp_defined(t: Ratio) -> bool {
        t.wf()
    }

    open spec fn lerp_value(&self, other: u8, t: Ratio) -> u8 {
        reverse_lerp(*self, other, t)
    }

    fn lerp(&self, other: u8, t: Ratio) -> (r: u8) {
        interpolate(*self, *self as i16 - other as i16, t)
    }
}

/// Conventional byte interpolation: `v1 + (v2 - v1) * t`, truncated toward
/// zero and clamped to `0..=255`.
pub fn lerp(v1: u8, v2: u8, t: Ratio) -> (r: u8)
    requires
        t.wf(),
    ensures
        r == forward_lerp(v1, v2, t),
{
    interpolate(v1, v2 as i16 - v1 as i16, t)
}

} // verus!
