//! From a Lyapunov exponent to a pixel.
//!
//! The exponent over the scale of the render is held to the unit interval
//! and split at one half into two ramps: from black to pure blue, then from
//! blue to white. Within a ramp the position, scaled to 255, is truncated to
//! the 8-bit level of the channels that change.
use vstd::prelude::*;
use crate::binary64::{
    lemma_value_of_normal, lemma_value_of_power, lemma_value_of_zero_bits, unit, units, Binary64,
};
use vstd::arithmetic::div_mod::{lemma_basic_div, lemma_div_by_multiple, lemma_div_is_ordered};
use vstd::arithmetic::power2::{
    lemma2_to64_rest, lemma_pow2_adds, lemma_pow2_pos, lemma_pow2_unfold, pow2,
};

verus! {

/// The pixel type `image::Rgb` of the `image` crate, taken as an opaque
/// value: what a pixel holds is known through `rgb_samples` alone.
#[verifier::external_type_specification]
#[verifier::external_body]
#[verifier::reject_recursive_types(T)]
pub struct ExRgb<T>(image::Rgb<T>);

/// The red, green and blue samples of a pixel, in this order.
pub uninterp spec fn rgb_samples(c: image::Rgb<u8>) -> Seq<u8>;

/// Builds a pixel of the `image` crate from its three samples.
///
/// `image::Rgb` is a tuple struct around the array of its samples; the
/// contract claims that the pixel built holds the three samples given, red
/// first.
#[verifier::external_body]
fn rgb(r: u8, g: u8, b: u8) -> (c: image::Rgb<u8>)
    ensures
        rgb_samples(c) == seq![r, g, b],
{
    image::Rgb([r, g, b])
}

/// One of the two ramps of the gradient.
#[derive(Clone, Copy, Debug, PartialEq, Eq, Structural)]
pub enum Ramp {
    /// The lower half of the unit interval: from black to pure blue.
    BlackToBlue,
    /// The upper half: from pure blue to white.
    BlueToWhite,
}

/// The position on the gradient for the ratio `t` of exponent to scale: `t`
/// held to the unit interval, and the top of the gradient for a ratio that
/// is not finite.
pub open spec fn clamped(t: Binary64) -> Binary64 {
    if !t.finite() || t.value() >= units(1) {
        Binary64 { bits: 0x3ff0_0000_0000_0000 }
    } else if t.value() <= 0 {
        Binary64 { bits: 0 }
    } else {
        t
    }
}

/// The ramp on which the position `t` lies: the lower one up to one half,
/// one half included.
pub open spec fn ramp_at(t: Binary64) -> Ramp {
    if !t.nan() && 2 * t.value() <= units(1) {
        Ramp::BlackToBlue
    } else {
        Ramp::BlueToWhite
    }
}

/// The samples of the colour at `level` on a ramp: on the lower ramp blue
/// rises from 0 to 255 while red and green stay 0; on the upper ramp red and
/// green rise together while blue stays 255.
pub open spec fn samples_at(ramp: Ramp, level: u8) -> Seq<u8> {
    match ramp {
        Ramp::BlackToBlue => seq![0u8, 0u8, level],
        Ramp::BlueToWhite => seq![level, level, 255u8],
    }
}

/// Holds the ratio of exponent to scale to the unit interval.
///
/// A ratio that is an infinity or a NaN comes from a singular trajectory and
/// is put at the top of the gradient. A ratio of zero or less gives positive
/// zero, a ratio of one or more gives one, any other is returned as it is.
pub fn unit_interval(t: Binary64) -> (r: Binary64)
    ensures
        r == clamped(t),
        r.finite(),
        0 <= r.value() <= units(1),
{
    let one = Binary64::one();
    let zero = Binary64::zero();
    proof {
        lemma_value_of_zero_bits(zero);
    }
    if !t.is_finite() || t.ge(one) {
        one
    } else if t.le(zero) {
        zero
    } else {
        t
    }
}

/// Tells on which ramp a position lies. One half itself is the end of the
/// lower ramp.
pub fn ramp_of(t: Binary64) -> (ramp: Ramp)
    ensures
        ramp == ramp_at(t),
{
    if t.le(Binary64::half()) {
        Ramp::BlackToBlue
    } else {
        Ramp::BlueToWhite
    }
}

/// The colour on `ramp` where the position within the ramp, scaled to 255,
/// is `scaled`. The number is truncated to its 8-bit level, not rounded.
pub fn gradient(ramp: Ramp, scaled: Binary64) -> (c: image::Rgb<u8>)
    ensures
        rgb_samples(c) == samples_at(ramp, scaled.level() as u8),
{
    let level: u8 = scaled.to_u8();
    match ramp {
        Ramp::BlackToBlue => rgb(0, 0, level),
        Ramp::BlueToWhite => rgb(level, level, 255),
    }
}

/// The colour of a pixel whose trajectory ran into a singularity: the top
/// of the gradient, white.
pub fn singular() -> (c: image::Rgb<u8>)
    ensures
        rgb_samples(c) == seq![255u8, 255u8, 255u8],
        rgb_samples(c) == samples_at(Ramp::BlueToWhite, 255),
{
    rgb(255, 255, 255)
}

/// The colour whose three samples are the numbers `r`, `g` and `b`, each
/// truncated to its 8-bit level.
pub fn quantize(r: Binary64, g: Binary64, b: Binary64) -> (c: image::Rgb<u8>)
    ensures
        rgb_samples(c) == seq![r.level() as u8, g.level() as u8, b.level() as u8],
{
    rgb(r.to_u8(), g.to_u8(), b.to_u8())
}

/// The samples of the colour that the ratio `t` of exponent to scale gets
/// when the position within its ramp, scaled to 255, is `scaled`.
pub open spec fn samples_for(t: Binary64, scaled: Binary64) -> Seq<u8> {
    samples_at(ramp_at(clamped(t)), scaled.level() as u8)
}

/// The colour of a pixel is decided by the numbers handed in and by nothing
/// else: the same ratio and the same scaled position give the same position
/// on the gradient, the same ramp and the same samples, whenever and in
/// whatever order they are asked for.
pub proof fn lemma_color_repeats(t: Binary64, scaled: Binary64, u: Binary64, rescaled: Binary64)
    requires
        t == u,
        scaled == rescaled,
    ensures
        clamped(t) == clamped(u),
        ramp_at(clamped(t)) == ramp_at(clamped(u)),
        samples_for(t, scaled) == samples_for(u, rescaled),
{
}

/// Truncation keeps order: of two numbers the larger has the level that is
/// not the smaller.
pub proof fn lemma_level_monotonic(a: Binary64, b: Binary64)
    requires
        a.at_most(b),
    ensures
        a.level() <= b.level(),
{
    lemma_pow2_pos(1074);
    lemma_div_is_ordered(a.value(), b.value(), unit());
}

/// Within each ramp every channel is monotonic: where the scaled position
/// grows, no sample of the colour falls.
pub proof fn lemma_gradient_monotonic(ramp: Ramp, a: Binary64, b: Binary64)
    requires
        a.at_most(b),
    ensures
        samples_at(ramp, a.level() as u8)[0] <= samples_at(ramp, b.level() as u8)[0],
        samples_at(ramp, a.level() as u8)[1] <= samples_at(ramp, b.level() as u8)[1],
        samples_at(ramp, a.level() as u8)[2] <= samples_at(ramp, b.level() as u8)[2],
{
    lemma_level_monotonic(a, b);
}

/// The encoding `0x406f_e000_0000_0000` is the number 255, the top level.
pub proof fn lemma_top_level(x: Binary64)
    requires
        x.bits == 0x406f_e000_0000_0000,
    ensures
        !x.nan(),
        x.value() == units(255),
        x.level() == 255,
{
    // exponent field 1030, significand 255 * 2^45
    lemma_value_of_normal(x, 1030, 0xf_e000_0000_0000);
    lemma2_to64_rest();
    lemma_pow2_adds(45, 1029);
    let p = pow2(1029);
    assert((0x0010_0000_0000_0000 + 0xf_e000_0000_0000) as nat * p == 255 * (pow2(45) * p))
        by (nonlinear_arith)
        requires
            pow2(45) == 0x2000_0000_0000,
    ;
    lemma_pow2_pos(1074);
    lemma_div_by_multiple(255, unit());
}

/// The landmarks of the gradient. A ratio of zero, whose scaled position is
/// zero, is black. A ratio of one half ends the lower ramp, where the scaled
/// position is 255: pure blue. A ratio of one ends the upper ramp, where the
/// scaled position is 255 again: white.
pub proof fn lemma_gradient_landmarks()
    ensures
        samples_for(Binary64 { bits: 0 }, Binary64 { bits: 0 }) == seq![0u8, 0u8, 0u8],
        samples_for(
            Binary64 { bits: 0x3fe0_0000_0000_0000 },
            Binary64 { bits: 0x406f_e000_0000_0000 },
        ) == seq![0u8, 0u8, 255u8],
        samples_for(
            Binary64 { bits: 0x3ff0_0000_0000_0000 },
            Binary64 { bits: 0x406f_e000_0000_0000 },
        ) == seq![255u8, 255u8, 255u8],
{
    let zero = Binary64 { bits: 0 };
    let half = Binary64 { bits: 0x3fe0_0000_0000_0000 };
    let one = Binary64 { bits: 0x3ff0_0000_0000_0000 };
    lemma_value_of_zero_bits(zero);
    lemma_value_of_power(half, 1022);
    lemma_value_of_power(one, 1023);
    lemma_pow2_unfold(1074);
    lemma_pow2_pos(1074);
    lemma_basic_div(0, unit());
    lemma_top_level(Binary64 { bits: 0x406f_e000_0000_0000 });
    assert(clamped(zero) == zero);
    assert(clamped(half) == half);
    assert(clamped(one) == one);
}

/// The gradient is continuous at one half: the lower ramp ends in the
/// colour with which the upper ramp begins, pure blue.
pub proof fn lemma_gradient_continuous()
    ensures
        samples_at(Ramp::BlackToBlue, 255) == samples_at(Ramp::BlueToWhite, 0),
        samples_at(Ramp::BlackToBlue, 255) == seq![0u8, 0u8, 255u8],
{
}

} // verus!
