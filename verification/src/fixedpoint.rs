//! Binary fixed-point arithmetic in the Q32.32 format.
//!
//! A `u64` (or `i64` for signed values) carries a real number scaled by
//! `2^32`; `Q32_ONE` stands for one. Products and quotients round toward
//! zero, and every operation's result is pinned to an exact integer
//! formula.
use vstd::arithmetic::div_mod::{lemma_div_is_ordered, lemma_div_multiples_vanish};
use vstd::arithmetic::mul::lemma_mul_inequality;
use vstd::arithmetic::power2::pow2;
use vstd::bits::lemma_u128_shr_is_div;
use vstd::prelude::*;

verus! {

/// One in Q32.32.
pub const Q32_ONE: u64 = 0x1_0000_0000;

/// Floor of the Q32 product `a * b / 2^32`.
pub open spec fn q32_mul(a: u64, b: u64) -> int {
    (a * b) / 0x1_0000_0000
}

/// Floor of the Q32 quotient `a * 2^32 / b`.
pub open spec fn q32_div(a: u64, b: u64) -> int {
    (a * 0x1_0000_0000) / (b as int)
}

/// Signed Q32 product, rounded toward zero.
pub open spec fn sq32_mul(a: i64, b: i64) -> int {
    if a * b >= 0 {
        (a * b) / 0x1_0000_0000
    } else {
        -((-(a * b)) / 0x1_0000_0000)
    }
}

/// Q32 multiply: the high part of the 128-bit product.
pub fn mul_q32(a: u64, b: u64) -> (r: u64)
    requires
        a * b <= 0xFFFF_FFFF_FFFF_FFFF * 0x1_0000_0000,
    ensures
        r == q32_mul(a, b),
{
    let p: u128 = (a as u128) * (b as u128);
    proof {
        lemma_u128_shr_is_div(p, 32);
        vstd::arithmetic::power2::lemma2_to64();
        assert(pow2(32) == 0x1_0000_0000);
        lemma_div_is_ordered(
            p as int,
            (0xFFFF_FFFF_FFFF_FFFF * 0x1_0000_0000) as int,
            0x1_0000_0000,
        );
    }
    (p >> 32) as u64
}

/// Q32 divide: `a * 2^32 / b` for a positive divisor.
pub fn div_q32(a: u64, b: u64) -> (r: u64)
    requires
        0 < b,
        a <= 0xFFFF_FFFF * b,
    ensures
        r == q32_div(a, b),
{
    let n: u128 = (a as u128) * 0x1_0000_0000;
    let q: u128 = n / (b as u128);
    proof {
        lemma_mul_inequality(a as int, 0xFFFF_FFFF * b, 0x1_0000_0000);
        assert((0xFFFF_FFFF * b) * 0x1_0000_0000 == b * 0xFFFF_FFFF_0000_0000)
            by (nonlinear_arith);
        lemma_div_is_ordered(n as int, b * 0xFFFF_FFFF_0000_0000, b as int);
        lemma_div_multiples_vanish(0xFFFF_FFFF_0000_0000, b as int);
    }
    q as u64
}

/// Signed Q32 multiply, rounding toward zero, for operands within
/// `±2^46` (plenty for the polynomial work this crate does).
pub fn smul_q32(a: i64, b: i64) -> (r: i64)
    requires
        -0x4000_0000_0000 <= a <= 0x4000_0000_0000,
        -0x4000_0000_0000 <= b <= 0x4000_0000_0000,
    ensures
        r == sq32_mul(a, b),
        -0x4000_0000_0000 * 0x4000 <= r <= 0x4000_0000_0000 * 0x4000,
{
    let neg: bool = (a < 0) != (b < 0);
    let am: u64 = if a < 0 {
        (-a) as u64
    } else {
        a as u64
    };
    let bm: u64 = if b < 0 {
        (-b) as u64
    } else {
        b as u64
    };
    proof {
        assert(am * bm <= 0x4000_0000_0000 * 0x4000_0000_0000) by (nonlinear_arith)
            requires
                am <= 0x4000_0000_0000 && bm <= 0x4000_0000_0000,
        ;
        assert(am as int * bm as int == if a * b >= 0 {
            a * b
        } else {
            -(a * b)
        }) by (nonlinear_arith)
            requires
                am == if a < 0 {
                    -a
                } else {
                    a as int
                } && bm == if b < 0 {
                    -b
                } else {
                    b as int
                },
        ;
    }
    let m: u64 = mul_q32(am, bm);
    proof {
        assert(neg ==> a * b <= 0) by (nonlinear_arith)
            requires
                neg == ((a < 0) != (b < 0)),
        ;
        assert(!neg ==> a * b >= 0) by (nonlinear_arith)
            requires
                neg == ((a < 0) != (b < 0)),
        ;
        lemma_div_is_ordered(
            am * bm,
            (0x4000_0000_0000 * 0x4000_0000_0000) as int,
            0x1_0000_0000,
        );
    }
    if neg {
        -(m as i64)
    } else {
        m as i64
    }
}

} // verus!
