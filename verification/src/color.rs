//! Linear-to-display color mapping: square-root ("gamma 2") correction,
//! clamping and 8-bit quantization.

use vstd::prelude::*;
use crate::fixed::{fp_sqrt_s, fp_sqrt, tdiv};
use crate::interval::{Interval, clamp_s};
use crate::vec3::Vec3;

verus! {

/// Upper clamp of a channel before quantization: just under one.
pub const COLOR_CLAMP_MAX: i64 = 65470;

/// Model of gamma correction: the square root of a positive channel,
/// zero for a nonpositive one (never a negative square root).
pub open spec fn linear_to_gamma_s(c: int) -> int {
    if c > 0 {
        fp_sqrt_s(c)
    } else {
        0
    }
}

/// Model of one channel's quantization: gamma-correct, clamp into
/// `[0, COLOR_CLAMP_MAX]`, scale by 256 and truncate.
pub open spec fn channel_byte_s(c: int) -> int {
    let g = linear_to_gamma_s(c);
    let cl = clamp_s(Interval { min: 0, max: COLOR_CLAMP_MAX }, g);
    tdiv(cl * 256, crate::fixed::FP_ONE as int)
}

/// Model of mapping a linear color to its display RGB triple.
pub open spec fn write_color_s(color: Vec3) -> (int, int, int) {
    (channel_byte_s(color.x as int), channel_byte_s(color.y as int), channel_byte_s(color.z as int))
}

/// Gamma correction of one linear channel.
pub fn linear_to_gamma(linear_component: i64) -> (r: i64)
    ensures
        r == linear_to_gamma_s(linear_component as int),
        0 <= r,
{
    if linear_component > 0 {
        fp_sqrt(linear_component)
    } else {
        0
    }
}

/// One channel's display byte.
fn channel_byte(c: i64) -> (r: u8)
    ensures
        r == channel_byte_s(c as int),
{
    let intensity = Interval::new(0, COLOR_CLAMP_MAX);
    let cl = intensity.clamp(linear_to_gamma(c));
    proof {
        vstd::arithmetic::div_mod::lemma_div_pos_is_pos(cl * 256, crate::fixed::FP_ONE as int);
        vstd::arithmetic::div_mod::lemma_div_is_ordered(
            cl * 256,
            COLOR_CLAMP_MAX * 256,
            crate::fixed::FP_ONE as int,
        );
    }
    ((cl as u64 * 256) / 65536) as u8
}

/// The display RGB triple of a linear color estimate.
pub fn write_color(pixel_color: Vec3) -> (rgb: (u8, u8, u8))
    ensures
        (rgb.0 as int, rgb.1 as int, rgb.2 as int) == write_color_s(pixel_color),
{
    (channel_byte(pixel_color.x), channel_byte(pixel_color.y), channel_byte(pixel_color.z))
}

} // verus!
