//! Q32 evaluation of the Gaussian kernel's ingredients: a decaying
//! exponential and the error function.
//!
//! The error function uses the Abramowitz–Stegun 7.1.26 rational
//! approximation, with the sign handled separately since the
//! approximation is defined for non-negative input. Every function's
//! result is pinned to a spec-level mirror of its own rounding
//! behaviour; the contracts also carry the range facts the blur table
//! construction needs (results stay within `[0, 1]`).
use crate::fixedpoint::{div_q32, mul_q32, q32_div, q32_mul, smul_q32, sq32_mul, Q32_ONE};
use vstd::arithmetic::div_mod::{
    lemma_div_is_ordered, lemma_div_is_ordered_by_denominator, lemma_div_multiples_vanish,
    lemma_div_pos_is_pos,
};
use vstd::arithmetic::mul::{lemma_mul_inequality, lemma_mul_upper_bound};
use vstd::prelude::*;

verus! {

/// `1 / e` in Q32.
pub const INV_E_Q32: u64 = 0x5E2D_58D8;

/// `sqrt(2)` in Q32.
pub const SQRT2_Q32: u64 = 0x1_6A09_E667;

/// Abramowitz–Stegun 7.1.26 coefficients in Q32.
pub const ERF_A1_Q32: i64 = 0x413C_831B;

pub const ERF_A2_Q32: i64 = -0x48D4_C730;

pub const ERF_A3_Q32: i64 = 0x1_6BE1_C55B;

pub const ERF_A4_Q32: i64 = -0x1_7401_C570;

pub const ERF_A5_Q32: i64 = 0x1_0FB8_4425;

pub const ERF_P_Q32: u64 = 0x53DD_02A4;

/// Term `k` of the Q32 power series for `exp(f)`, `f` in `[0, 1]`:
/// term 0 is one, and each later term is the previous one multiplied by
/// `f` and divided by `k`, with Q32 flooring at each step.
pub open spec fn exp_term(f: u64, k: nat) -> int
    decreases k,
{
    if k == 0 {
        0x1_0000_0000
    } else {
        (exp_term(f, (k - 1) as nat) * f / 0x1_0000_0000) / (k as int)
    }
}

/// Sum of the first `k` series terms.
pub open spec fn exp_frac_sum(f: u64, k: nat) -> int
    decreases k,
{
    if k == 0 {
        0
    } else {
        exp_frac_sum(f, (k - 1) as nat) + exp_term(f, (k - 1) as nat)
    }
}

pub proof fn lemma_exp_term_nonneg(f: u64, k: nat)
    ensures
        exp_term(f, k) >= 0,
    decreases k,
{
    if k > 0 {
        lemma_exp_term_nonneg(f, (k - 1) as nat);
        let prev = exp_term(f, (k - 1) as nat);
        assert(prev * f >= 0) by (nonlinear_arith)
            requires
                prev >= 0,
        ;
        lemma_div_pos_is_pos(prev * f, 0x1_0000_0000);
        lemma_div_pos_is_pos(prev * f / 0x1_0000_0000, k as int);
    }
}

/// `exp(f)` for a Q32 fraction `f` in `[0, 1]`, by 20 series terms.
fn exp_pos_frac(f: u64) -> (r: u64)
    requires
        f <= Q32_ONE,
    ensures
        r == exp_frac_sum(f, 20),
        Q32_ONE <= r <= 4 * Q32_ONE,
{
    proof {
        lemma_div_multiples_vanish(f as int, 0x1_0000_0000);
        reveal_with_fuel(exp_term, 2);
        reveal_with_fuel(exp_frac_sum, 3);
        assert(exp_term(f, 1) == f);
        assert(exp_frac_sum(f, 2) == 0x1_0000_0000 + f);
    }
    let mut term: u64 = f;
    let mut sum: u64 = Q32_ONE + f;
    let mut k: u64 = 2;
    while k < 20
        invariant
            2 <= k <= 20,
            f <= Q32_ONE,
            term == exp_term(f, (k - 1) as nat),
            sum == exp_frac_sum(f, k as nat),
            term <= Q32_ONE,
            Q32_ONE <= sum,
            sum + 2 * term <= 4 * Q32_ONE,
        decreases 20 - k,
    {
        proof {
            assert(term * f <= 0x1_0000_0000 * 0x1_0000_0000) by (nonlinear_arith)
                requires
                    term <= 0x1_0000_0000 && f <= 0x1_0000_0000,
            ;
            lemma_div_is_ordered(
                term * f,
                (0x1_0000_0000 * 0x1_0000_0000) as int,
                0x1_0000_0000,
            );
        }
        let tf: u64 = mul_q32(term, f);
        proof {
            assert(term * f <= term * 0x1_0000_0000) by (nonlinear_arith)
                requires
                    f <= 0x1_0000_0000 && term >= 0,
            ;
            lemma_div_is_ordered(term * f, term * 0x1_0000_0000, 0x1_0000_0000);
            lemma_div_multiples_vanish(term as int, 0x1_0000_0000);
            assert(term * 0x1_0000_0000 == 0x1_0000_0000 * term) by (nonlinear_arith);
            assert(tf <= term);
            lemma_div_is_ordered_by_denominator(tf as int, 2, k as int);
            lemma_div_pos_is_pos(tf as int, k as int);
        }
        let new_term: u64 = tf / k;
        sum = sum + new_term;
        term = new_term;
        k = k + 1;
    }
    proof {
        lemma_exp_term_nonneg(f, 19);
    }
    sum
}

/// Repeated multiplication by `1/e` in Q32: `n` damping steps applied
/// to a base value.
pub open spec fn inv_e_steps(b: int, n: nat) -> int
    decreases n,
{
    if n == 0 {
        b
    } else {
        inv_e_steps(b, (n - 1) as nat) * 0x5E2D_58D8 / 0x1_0000_0000
    }
}

/// `exp(-x)` for a Q32 argument: zero beyond 23 (where the true value
/// is below the Q32 resolution), else the reciprocal of the series for
/// the fractional part, damped once per whole unit.
pub open spec fn spec_exp_neg(x: u64) -> int {
    if x >= 23 * 0x1_0000_0000 {
        0
    } else {
        inv_e_steps(
            ((0x1_0000_0000 * 0x1_0000_0000) as int) / exp_frac_sum((x % 0x1_0000_0000) as u64, 20),
            (x / 0x1_0000_0000) as nat,
        )
    }
}

/// `exp(-x)`, Q32 in and out.
pub fn exp_neg_q32(x: u64) -> (r: u64)
    ensures
        r == spec_exp_neg(x),
        r <= Q32_ONE,
{
    if x >= 23 * Q32_ONE {
        return 0;
    }
    let n: u64 = x >> 32;
    let f: u64 = x & 0xFFFF_FFFF;
    proof {
        assert(x >> 32 == x / 0x1_0000_0000 && (x & 0xFFFF_FFFF) == x % 0x1_0000_0000)
            by (bit_vector);
    }
    let ef: u64 = exp_pos_frac(f);
    proof {
        lemma_mul_inequality(0x1_0000_0000, ef as int, 0xFFFF_FFFF);
        assert(0xFFFF_FFFF * ef == ef * 0xFFFF_FFFF) by (nonlinear_arith);
        lemma_div_is_ordered_by_denominator(
            (0x1_0000_0000 * 0x1_0000_0000) as int,
            0x1_0000_0000,
            ef as int,
        );
    }
    let mut r: u64 = div_q32(Q32_ONE, ef);
    let ghost base: int = r as int;
    let mut i: u64 = 0;
    while i < n
        invariant
            i <= n,
            r == inv_e_steps(base, i as nat),
            r <= Q32_ONE,
        decreases n - i,
    {
        proof {
            lemma_div_is_ordered(
                r * 0x5E2D_58D8,
                (0x1_0000_0000 * 0x5E2D_58D8) as int,
                0x1_0000_0000,
            );
        }
        r = mul_q32(r, INV_E_Q32);
        i = i + 1;
    }
    r
}

/// The series sum keeps its leading term: it is at least one.
pub proof fn lemma_exp_frac_sum_ge_one(f: u64, k: nat)
    requires
        k >= 1,
    ensures
        exp_frac_sum(f, k) >= 0x1_0000_0000,
    decreases k,
{
    if k == 1 {
        assert(exp_frac_sum(f, 1) == exp_frac_sum(f, 0) + exp_term(f, 0));
    } else {
        lemma_exp_frac_sum_ge_one(f, (k - 1) as nat);
        lemma_exp_term_nonneg(f, (k - 1) as nat);
    }
}

/// Damping by `1/e` keeps a Q32 value within `[0, 1]`.
pub proof fn lemma_inv_e_steps_bounds(b: int, n: nat)
    requires
        0 <= b <= 0x1_0000_0000,
    ensures
        0 <= inv_e_steps(b, n) <= 0x1_0000_0000,
    decreases n,
{
    if n > 0 {
        lemma_inv_e_steps_bounds(b, (n - 1) as nat);
        let prev = inv_e_steps(b, (n - 1) as nat);
        assert(0 <= prev * 0x5E2D_58D8 <= 0x1_0000_0000 * 0x5E2D_58D8) by (nonlinear_arith)
            requires
                0 <= prev <= 0x1_0000_0000,
        ;
        lemma_div_is_ordered(
            prev * 0x5E2D_58D8,
            (0x1_0000_0000 * 0x5E2D_58D8) as int,
            0x1_0000_0000,
        );
        lemma_div_pos_is_pos(prev * 0x5E2D_58D8, 0x1_0000_0000);
    }
}

/// `exp(-x)` stays within `[0, 1]` in Q32.
pub proof fn lemma_spec_exp_neg_bounds(x: u64)
    ensures
        0 <= spec_exp_neg(x) <= 0x1_0000_0000,
{
    if x < 23 * 0x1_0000_0000 {
        let f = (x % 0x1_0000_0000) as u64;
        let ef = exp_frac_sum(f, 20);
        lemma_exp_frac_sum_ge_one(f, 20);
        lemma_div_pos_is_pos((0x1_0000_0000 * 0x1_0000_0000) as int, ef);
        lemma_div_is_ordered_by_denominator(
            (0x1_0000_0000 * 0x1_0000_0000) as int,
            0x1_0000_0000,
            ef,
        );
        lemma_inv_e_steps_bounds(
            ((0x1_0000_0000 * 0x1_0000_0000) as int) / ef,
            (x / 0x1_0000_0000) as nat,
        );
    }
}

/// `exp(-0)` is exactly one in Q32: every series term past the first
/// vanishes for a zero fraction.
pub proof fn lemma_spec_exp_neg_zero()
    ensures
        spec_exp_neg(0) == 0x1_0000_0000,
{
    assert forall|k: nat| 1 <= k <= 19 implies exp_term(0u64, k) == 0 by {
        lemma_exp_term_zero(k);
    }
    assert(exp_frac_sum(0u64, 20) == 0x1_0000_0000) by {
        lemma_exp_frac_sum_zero(20);
    }
    assert(spec_exp_neg(0) == inv_e_steps(
        ((0x1_0000_0000 * 0x1_0000_0000) as int) / exp_frac_sum(0u64, 20),
        0,
    ));
}

proof fn lemma_exp_term_zero(k: nat)
    requires
        k >= 1,
    ensures
        exp_term(0u64, k) == 0,
    decreases k,
{
    if k > 1 {
        lemma_exp_term_zero((k - 1) as nat);
    }
}

proof fn lemma_exp_frac_sum_zero(k: nat)
    requires
        k >= 1,
    ensures
        exp_frac_sum(0u64, k) == 0x1_0000_0000,
    decreases k,
{
    if k == 1 {
        reveal_with_fuel(exp_frac_sum, 2);
        reveal_with_fuel(exp_term, 1);
        assert(exp_frac_sum(0u64, 1) == exp_frac_sum(0u64, 0) + exp_term(0u64, 0));
    } else {
        lemma_exp_frac_sum_zero((k - 1) as nat);
        lemma_exp_term_zero((k - 1) as nat);
    }
}

/// The error function mirror stays within `[-1, 1]` in Q32.
pub proof fn lemma_spec_erf_bounds(x: i64)
    ensures
        -0x1_0000_0000 <= spec_erf(x) <= 0x1_0000_0000,
        x >= 0 ==> spec_erf(x) >= 0,
{
    if x >= 0 {
        lemma_spec_erf_pos_bounds(x as u64);
    } else {
        lemma_spec_erf_pos_bounds((-x) as u64);
    }
}

proof fn lemma_spec_erf_pos_bounds(x: u64)
    ensures
        0 <= spec_erf_pos(x) <= 0x1_0000_0000,
{
}

/// Magnitude bound for a signed Q32 product with a factor in `[0, 1]`.
pub proof fn lemma_sq32_mul_unit_bound(a: i64, b: i64, m: int)
    requires
        -m <= a <= m,
        0 <= b <= 0x1_0000_0000,
        0 <= m,
    ensures
        -m <= sq32_mul(a, b) <= m,
{
    if a >= 0 {
        assert(0 <= a * b <= m * 0x1_0000_0000) by (nonlinear_arith)
            requires
                0 <= a <= m && 0 <= b <= 0x1_0000_0000,
        ;
        lemma_div_is_ordered(a * b, m * 0x1_0000_0000, 0x1_0000_0000);
        lemma_div_multiples_vanish(m, 0x1_0000_0000);
        assert(m * 0x1_0000_0000 == 0x1_0000_0000 * m) by (nonlinear_arith);
        lemma_div_pos_is_pos(a * b, 0x1_0000_0000);
    } else {
        assert(0 <= -(a * b) <= m * 0x1_0000_0000) by (nonlinear_arith)
            requires
                -m <= a < 0 && 0 <= b <= 0x1_0000_0000,
        ;
        lemma_div_is_ordered(-(a * b), m * 0x1_0000_0000, 0x1_0000_0000);
        lemma_div_multiples_vanish(m, 0x1_0000_0000);
        assert(m * 0x1_0000_0000 == 0x1_0000_0000 * m) by (nonlinear_arith);
        lemma_div_pos_is_pos(-(a * b), 0x1_0000_0000);
    }
}

/// The A&S 7.1.26 evaluation for a non-negative Q32 argument, with the
/// argument capped at 6 (where the true error function is 1 within the
/// Q32 resolution) and the result clamped to `[0, 1]`.
pub open spec fn spec_erf_pos(x: u64) -> int {
    if x >= 6 * 0x1_0000_0000 {
        0x1_0000_0000
    } else {
        let px = q32_mul(0x53DD_02A4, x);
        let t = q32_div(0x1_0000_0000, (0x1_0000_0000 + px) as u64);
        let h4 = sq32_mul(0x1_0FB8_4425, t as i64) + (-0x1_7401_C570);
        let h3 = sq32_mul(h4 as i64, t as i64) + 0x1_6BE1_C55B;
        let h2 = sq32_mul(h3 as i64, t as i64) + (-0x48D4_C730);
        let h1 = sq32_mul(h2 as i64, t as i64) + 0x413C_831B;
        let poly = sq32_mul(h1 as i64, t as i64);
        let e = spec_exp_neg(q32_mul(x, x) as u64);
        let y = 0x1_0000_0000 - sq32_mul(poly as i64, e as i64);
        if y < 0 {
            0
        } else if y > 0x1_0000_0000 {
            0x1_0000_0000
        } else {
            y
        }
    }
}

/// The signed error function: odd extension of `spec_erf_pos`.
pub open spec fn spec_erf(x: i64) -> int {
    if x >= 0 {
        spec_erf_pos(x as u64)
    } else {
        -spec_erf_pos((-x) as u64)
    }
}

/// Error function for a non-negative Q32 argument.
pub fn erf_pos_q32(x: u64) -> (r: u64)
    ensures
        r == spec_erf_pos(x),
        r <= Q32_ONE,
{
    if x >= 6 * Q32_ONE {
        return Q32_ONE;
    }
    proof {
        lemma_mul_upper_bound(0x53DD_02A4, 0x53DD_02A4, x as int, (6 * 0x1_0000_0000) as int);
        lemma_div_is_ordered(
            0x53DD_02A4 * x,
            (0x53DD_02A4 * 6 * 0x1_0000_0000) as int,
            0x1_0000_0000,
        );
        lemma_div_pos_is_pos(0x53DD_02A4 * x, 0x1_0000_0000);
    }
    let px: u64 = mul_q32(ERF_P_Q32, x);
    proof {
        lemma_mul_inequality(0x1_0000_0000, (0x1_0000_0000 + px) as int, 0xFFFF_FFFF);
        assert(0xFFFF_FFFF * ((0x1_0000_0000 + px) as int) == ((0x1_0000_0000 + px) as int)
            * 0xFFFF_FFFF) by (nonlinear_arith);
        lemma_div_is_ordered_by_denominator(
            (0x1_0000_0000 * 0x1_0000_0000) as int,
            0x1_0000_0000,
            (0x1_0000_0000 + px) as int,
        );
    }
    let t: u64 = div_q32(Q32_ONE, Q32_ONE + px);
    let ti: i64 = t as i64;
    proof {
        lemma_sq32_mul_unit_bound(ERF_A5_Q32, ti, 0x1_0FB8_4425);
    }
    let h4: i64 = smul_q32(ERF_A5_Q32, ti) + ERF_A4_Q32;
    proof {
        lemma_sq32_mul_unit_bound(h4, ti, 0x2_83BA_0995);
    }
    let h3: i64 = smul_q32(h4, ti) + ERF_A3_Q32;
    proof {
        lemma_sq32_mul_unit_bound(h3, ti, 0x3_EF9B_CEF0);
    }
    let h2: i64 = smul_q32(h3, ti) + ERF_A2_Q32;
    proof {
        lemma_sq32_mul_unit_bound(h2, ti, 0x4_3870_9620);
    }
    let h1: i64 = smul_q32(h2, ti) + ERF_A1_Q32;
    proof {
        lemma_sq32_mul_unit_bound(h1, ti, 0x4_79AD_193B);
    }
    let poly: i64 = smul_q32(h1, ti);
    proof {
        lemma_mul_upper_bound(x as int, (6 * 0x1_0000_0000) as int, x as int, (6 * 0x1_0000_0000) as int);
        lemma_div_is_ordered(
            x * x,
            ((6 * 0x1_0000_0000) * (6 * 0x1_0000_0000)) as int,
            0x1_0000_0000,
        );
        lemma_div_pos_is_pos(x * x, 0x1_0000_0000);
    }
    let xx: u64 = mul_q32(x, x);
    let e: u64 = exp_neg_q32(xx);
    proof {
        lemma_sq32_mul_unit_bound(poly, e as i64, 0x4_79AD_193B);
    }
    let prod: i64 = smul_q32(poly, e as i64);
    let y: i64 = (Q32_ONE as i64) - prod;
    if y < 0 {
        0
    } else if y > Q32_ONE as i64 {
        Q32_ONE
    } else {
        y as u64
    }
}

/// Error function for a signed Q32 argument.
pub fn erf_q32(x: i64) -> (r: i64)
    requires
        x > i64::MIN,
    ensures
        r == spec_erf(x),
        -Q32_ONE <= r <= Q32_ONE,
{
    if x >= 0 {
        let r = erf_pos_q32(x as u64);
        r as i64
    } else {
        let r = erf_pos_q32((-x) as u64);
        -(r as i64)
    }
}

} // verus!
