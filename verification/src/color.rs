//! Fixed-point RGBA color packing and interpolation.
//!
//! A color is a `u32` laid out as `0xRRGGBBAA`. Interpolation takes the
//! blend position as an exact fraction `t_num / t_den`, so every channel
//! of the result is pinned by an integer formula.
use vstd::arithmetic::div_mod::{lemma_div_is_ordered, lemma_div_multiples_vanish};
use vstd::arithmetic::mul::lemma_mul_inequality;
use vstd::prelude::*;

verus! {

/// Red channel of a packed `0xRRGGBBAA` color.
pub open spec fn chan_r(c: u32) -> u32 {
    (c >> 24) & 0xFF
}

/// Green channel of a packed `0xRRGGBBAA` color.
pub open spec fn chan_g(c: u32) -> u32 {
    (c >> 16) & 0xFF
}

/// Blue channel of a packed `0xRRGGBBAA` color.
pub open spec fn chan_b(c: u32) -> u32 {
    (c >> 8) & 0xFF
}

/// Alpha channel of a packed `0xRRGGBBAA` color.
pub open spec fn chan_a(c: u32) -> u32 {
    c & 0xFF
}

/// Pack four 8-bit channels into one `0xRRGGBBAA` word.
pub fn rgba32(r: u8, g: u8, b: u8, a: u8) -> (col: u32)
    ensures
        col == r * 0x1000000 + g * 0x10000 + b * 0x100 + a,
        chan_r(col) == r,
        chan_g(col) == g,
        chan_b(col) == b,
        chan_a(col) == a,
{
    let mut col: u32 = a as u32;
    col |= (b as u32) << 8;
    col |= (g as u32) << 16;
    col |= (r as u32) << 24;
    proof {
        let ru = r as u32;
        let gu = g as u32;
        let bu = b as u32;
        let au = a as u32;
        let c = ((au | bu << 8) | gu << 16) | ru << 24;
        assert(((au | bu << 8) | gu << 16) | ru << 24 == ru * 0x1000000 + gu * 0x10000 + bu * 0x100
            + au && (c >> 24) & 0xFF == ru && (c >> 16) & 0xFF == gu && (c >> 8) & 0xFF == bu && c
            & 0xFF == au) by (bit_vector)
            requires
                ru < 256 && gu < 256 && bu < 256 && au < 256 && c == ((au | bu << 8) | gu << 16)
                    | ru << 24,
        ;
    }
    col
}

/// One channel blended at the exact fraction `num / den`.
pub open spec fn lerp_channel(a: u32, b: u32, num: u64, den: u64) -> int {
    ((den - num) * a + num * b) / (den as int)
}

proof fn lemma_blend_no_overflow(a: u32, b: u32, num: u64, den: u64)
    by (nonlinear_arith)
    requires
        a <= 255,
        b <= 255,
        num <= den,
        den <= 0x1_0000_0000,
    ensures
        (den - num) * a <= 0xFF_0000_0000,
        num * b <= 0xFF_0000_0000,
{
}

proof fn lemma_lerp_channel_in_byte(a: u32, b: u32, num: u64, den: u64)
    requires
        a <= 255,
        b <= 255,
        num <= den,
        0 < den,
    ensures
        0 <= lerp_channel(a, b, num, den) <= 255,
{
    let blend = (den - num) * a + num * b;
    lemma_mul_inequality(a as int, 255, (den - num) as int);
    lemma_mul_inequality(b as int, 255, num as int);
    assert(blend <= (den - num) * 255 + num * 255);
    assert((den - num) * 255 + num * 255 == den * 255) by (nonlinear_arith);
    lemma_div_is_ordered(blend as int, den * 255, den as int);
    lemma_div_multiples_vanish(255, den as int);
    assert(den * 255 == 255 * den) by (nonlinear_arith);
    vstd::arithmetic::div_mod::lemma_div_pos_is_pos(blend as int, den as int);
}

/// The blend sits exactly on its endpoints: at fraction zero a channel
/// keeps the first color's value, at fraction one the second's.
pub proof fn lemma_lerp_endpoints(a: u32, b: u32, den: u64)
    requires
        0 < den,
    ensures
        lerp_channel(a, b, 0, den) == a,
        lerp_channel(a, b, den, den) == b,
{
    lemma_div_multiples_vanish(a as int, den as int);
    lemma_div_multiples_vanish(b as int, den as int);
    assert(den * a == a * den && den * b == b * den) by (nonlinear_arith);
}

/// The packed word of a blend of two colors: each channel blended at
/// `num / den`, recombined in `0xRRGGBBAA` order.
pub open spec fn spec_color_lerp(c0: u32, c1: u32, num: u64, den: u64) -> int {
    lerp_channel(chan_r(c0), chan_r(c1), num, den) * 0x1000000 + lerp_channel(
        chan_g(c0),
        chan_g(c1),
        num,
        den,
    ) * 0x10000 + lerp_channel(chan_b(c0), chan_b(c1), num, den) * 0x100 + lerp_channel(
        chan_a(c0),
        chan_a(c1),
        num,
        den,
    )
}

/// Blend two packed colors channel by channel at the fraction
/// `t_num / t_den`; `t_num == 0` gives `c0`'s channels and
/// `t_num == t_den` gives `c1`'s.
pub fn lerp_u32_color(c0: u32, c1: u32, t_num: u64, t_den: u64) -> (col: u32)
    requires
        0 < t_den <= 0x1_0000_0000,
        t_num <= t_den,
    ensures
        col == spec_color_lerp(c0, c1, t_num, t_den),
        chan_r(col) == lerp_channel(chan_r(c0), chan_r(c1), t_num, t_den),
        chan_g(col) == lerp_channel(chan_g(c0), chan_g(c1), t_num, t_den),
        chan_b(col) == lerp_channel(chan_b(c0), chan_b(c1), t_num, t_den),
        chan_a(col) == lerp_channel(chan_a(c0), chan_a(c1), t_num, t_den),
{
    let c0_r = (c0 >> 24) & 0xFF;
    let c0_g = (c0 >> 16) & 0xFF;
    let c0_b = (c0 >> 8) & 0xFF;
    let c0_a = c0 & 0xFF;

    let c1_r = (c1 >> 24) & 0xFF;
    let c1_g = (c1 >> 16) & 0xFF;
    let c1_b = (c1 >> 8) & 0xFF;
    let c1_a = c1 & 0xFF;

    proof {
        assert((c0 >> 24) & 0xFF < 256 && (c0 >> 16) & 0xFF < 256 && (c0 >> 8) & 0xFF < 256 && c0
            & 0xFF < 256) by (bit_vector);
        assert((c1 >> 24) & 0xFF < 256 && (c1 >> 16) & 0xFF < 256 && (c1 >> 8) & 0xFF < 256 && c1
            & 0xFF < 256) by (bit_vector);
        lemma_lerp_channel_in_byte(c0_r, c1_r, t_num, t_den);
        lemma_lerp_channel_in_byte(c0_g, c1_g, t_num, t_den);
        lemma_lerp_channel_in_byte(c0_b, c1_b, t_num, t_den);
        lemma_lerp_channel_in_byte(c0_a, c1_a, t_num, t_den);
        lemma_blend_no_overflow(c0_r, c1_r, t_num, t_den);
        lemma_blend_no_overflow(c0_g, c1_g, t_num, t_den);
        lemma_blend_no_overflow(c0_b, c1_b, t_num, t_den);
        lemma_blend_no_overflow(c0_a, c1_a, t_num, t_den);
    }
    let r = (((t_den - t_num) * c0_r as u64 + t_num * c1_r as u64) / t_den) as u32;
    let g = (((t_den - t_num) * c0_g as u64 + t_num * c1_g as u64) / t_den) as u32;
    let b = (((t_den - t_num) * c0_b as u64 + t_num * c1_b as u64) / t_den) as u32;
    let a = (((t_den - t_num) * c0_a as u64 + t_num * c1_a as u64) / t_den) as u32;

    rgba32(r as u8, g as u8, b as u8, a as u8)
}

} // verus!
