//! Separable Gaussian blur coefficient tables.
//!
//! For a radius `r` and width `sigma` the table holds one weight per
//! integer offset in `[-r, r]`, normalized so the weights sum to one.
//! The weight of an offset `i` is either the Gaussian kernel value
//! `exp(-i^2 / sigma^2)`, or, with `correction`, the band integral of a
//! unit Gaussian over `[i - 1/2, i + 1/2]` computed through the error
//! function, which conserves energy for small radii. With `linear`,
//! adjacent samples are merged into bilinear-friendly pairs so a blur
//! pass needs half the texture fetches.
//!
//! `sigma` enters in Q16.16; weights are Q32.32 fractions of one and
//! offsets Q32.32 texel distances.
use crate::fixedpoint::{Q32_ONE};
use crate::gauss::{erf_q32, exp_neg_q32, spec_erf, spec_exp_neg};
use vstd::arithmetic::div_mod::{
    lemma_div_is_ordered, lemma_div_is_ordered_by_denominator, lemma_div_pos_is_pos,
};
use vstd::arithmetic::mul::{lemma_mul_inequality, lemma_mul_inequality_converse};
use vstd::prelude::*;

verus! {

/// Rejected blur parameters.
#[derive(Clone, Copy, Debug, PartialEq, Eq, Structural)]
pub enum BlurTableError {
    /// The radius was below one.
    InvalidRadius,
    /// The width was zero.
    InvalidSigma,
}

/// One table entry: a Q32 weight and a Q32 texel offset.
#[derive(Clone, Copy, Debug, PartialEq, Eq)]
pub struct BlurSample {
    pub weight_q32: u64,
    pub offset_q32: i64,
}

/// Q32 argument `i^2 / sigma^2` of the plain kernel, floored; the
/// square of a Q16 sigma is exactly a Q32 value.
pub open spec fn plain_arg(i: int, sigma_q16: u32) -> int {
    (i * i) * 0x1_0000_0000_0000_0000 / (sigma_q16 * sigma_q16)
}

/// Unnormalized plain kernel weight `exp(-i^2 / sigma^2)` in Q32.
pub open spec fn spec_weight_plain(i: int, sigma_q16: u32) -> int {
    if plain_arg(i, sigma_q16) >= 23 * 0x1_0000_0000 {
        0
    } else {
        spec_exp_neg(plain_arg(i, sigma_q16) as u64)
    }
}

/// Q32 of `(j/2) / (sigma * sqrt(2))` for an integer `j`, the error
/// function argument at a pixel boundary, clamped to `±6` (beyond
/// which the error function is one at Q32 resolution). `s2_q32` is
/// `sigma * sqrt(2)` in Q32.
pub open spec fn spec_half_point(j: int, s2_q32: u64) -> int {
    let a = if j >= 0 {
        j
    } else {
        -j
    };
    let q = a * 0x8000_0000_0000_0000 / (s2_q32 as int);
    let c = if q >= 6 * 0x1_0000_0000 {
        (6 * 0x1_0000_0000) as int
    } else {
        q
    };
    if j >= 0 {
        c
    } else {
        -c
    }
}

/// `sigma * sqrt(2)` in Q32 from a Q16 sigma.
pub open spec fn spec_sigma_sqrt2(sigma_q16: u32) -> int {
    sigma_q16 * 0x1_6A09_E667 / 0x10000
}

/// Unnormalized band-integral weight: half the difference of the error
/// function at the two pixel boundaries, clamped below at zero.
pub open spec fn spec_weight_corrected(i: int, sigma_q16: u32) -> int {
    let s2 = spec_sigma_sqrt2(sigma_q16) as u64;
    let d = spec_erf(spec_half_point(2 * i + 1, s2) as i64) - spec_erf(
        spec_half_point(2 * i - 1, s2) as i64,
    );
    if d <= 0 {
        0
    } else {
        d / 2
    }
}

/// Unnormalized kernel weight at offset `i`.
pub open spec fn raw_weight(i: int, sigma_q16: u32, correction: bool) -> int {
    if correction {
        spec_weight_corrected(i, sigma_q16)
    } else {
        spec_weight_plain(i, sigma_q16)
    }
}

/// The plain kernel weight, evaluated in Q32.
fn weight_plain_at(i: i64, sigma_q16: u32) -> (w: u64)
    requires
        sigma_q16 > 0,
        -0x8000_0000 <= i <= 0x8000_0000,
    ensures
        w == spec_weight_plain(i as int, sigma_q16),
        w <= Q32_ONE,
{
    proof {
        assert(sigma_q16 as int * sigma_q16 as int <= 0xFFFF_FFFF * 0xFFFF_FFFF && sigma_q16
            as int * sigma_q16 as int > 0) by (nonlinear_arith)
            requires
                0 < sigma_q16 <= 0xFFFF_FFFF,
        ;
    }
    let s2: u64 = (sigma_q16 as u64) * (sigma_q16 as u64);
    let m: u64 = if i < 0 {
        (-i) as u64
    } else {
        i as u64
    };
    proof {
        assert(m * m <= 0x8000_0000 * 0x8000_0000 && m as int * m as int == i as int * i as int)
            by (nonlinear_arith)
            requires
                m == if i < 0 {
                    -i
                } else {
                    i as int
                } && -0x8000_0000 <= i <= 0x8000_0000,
        ;
    }
    let m2: u64 = m * m;
    let num: u128 = (m2 as u128) * 0x1_0000_0000_0000_0000;
    let t: u128 = num / (s2 as u128);
    if t >= 23 * 0x1_0000_0000 {
        0
    } else {
        exp_neg_q32(t as u64)
    }
}

/// `sigma * sqrt(2)` in Q32, evaluated exactly.
fn sigma_sqrt2_q32(sigma_q16: u32) -> (s2: u64)
    requires
        sigma_q16 > 0,
    ensures
        s2 == spec_sigma_sqrt2(sigma_q16),
        1 <= s2 <= 0x2_0000_0000_0000,
{
    let num: u128 = (sigma_q16 as u128) * 0x1_6A09_E667;
    let q: u128 = num / 0x10000;
    proof {
        lemma_mul_inequality(1, sigma_q16 as int, 0x1_6A09_E667);
        assert(1 * 0x1_6A09_E667 == 0x1_6A09_E667 && sigma_q16 as int * 0x1_6A09_E667
            == 0x1_6A09_E667 * sigma_q16) by (nonlinear_arith);
        lemma_div_is_ordered(0x1_6A09_E667, sigma_q16 * 0x1_6A09_E667, 0x10000);
        lemma_mul_inequality(sigma_q16 as int, 0xFFFF_FFFF, 0x1_6A09_E667);
        lemma_div_is_ordered(
            sigma_q16 * 0x1_6A09_E667,
            (0xFFFF_FFFF * 0x1_6A09_E667) as int,
            0x10000,
        );
    }
    q as u64
}

/// The Q32 error-function argument at the pixel boundary `j / 2`.
fn erf_arg_q32(j: i64, s2: u64) -> (x: i64)
    requires
        1 <= s2,
        -0x2_0000_0001 <= j <= 0x2_0000_0001,
    ensures
        x == spec_half_point(j as int, s2),
        -6 * 0x1_0000_0000 <= x <= 6 * 0x1_0000_0000,
{
    let m: u64 = if j < 0 {
        (-j) as u64
    } else {
        j as u64
    };
    let num: u128 = (m as u128) * 0x8000_0000_0000_0000;
    let q: u128 = num / (s2 as u128);
    let c: u64 = if q >= 6 * 0x1_0000_0000 {
        6 * 0x1_0000_0000
    } else {
        q as u64
    };
    if j < 0 {
        -(c as i64)
    } else {
        c as i64
    }
}

/// The band-integral kernel weight, evaluated in Q32.
fn weight_corrected_at(i: i64, sigma_q16: u32) -> (w: u64)
    requires
        sigma_q16 > 0,
        -0x8000_0000 <= i <= 0x8000_0000,
    ensures
        w == spec_weight_corrected(i as int, sigma_q16),
        w <= Q32_ONE,
{
    let s2: u64 = sigma_sqrt2_q32(sigma_q16);
    let xp: i64 = erf_arg_q32(2 * i + 1, s2);
    let xm: i64 = erf_arg_q32(2 * i - 1, s2);
    let ep: i64 = erf_q32(xp);
    let em: i64 = erf_q32(xm);
    let d: i64 = ep - em;
    if d <= 0 {
        0
    } else {
        (d / 2) as u64
    }
}

/// The kernel weight at offset `i`, before normalization.
fn raw_weight_at(i: i64, sigma_q16: u32, correction: bool) -> (w: u64)
    requires
        sigma_q16 > 0,
        -0x8000_0000 <= i <= 0x8000_0000,
    ensures
        w == raw_weight(i as int, sigma_q16, correction),
        w <= Q32_ONE,
{
    if correction {
        weight_corrected_at(i, sigma_q16)
    } else {
        weight_plain_at(i, sigma_q16)
    }
}

/// Sum of the first `k` unnormalized weights, in table order (offset
/// `-radius` first).
pub open spec fn raw_weight_sum(radius: int, sigma_q16: u32, correction: bool, k: nat) -> int
    decreases k,
{
    if k == 0 {
        0
    } else {
        raw_weight_sum(radius, sigma_q16, correction, (k - 1) as nat) + raw_weight(
            k - 1 - radius,
            sigma_q16,
            correction,
        )
    }
}

/// Normalized Q32 weight of table slot `k`: the raw weight divided by
/// the raw total, or the raw weight itself in the degenerate case of a
/// zero total (where all weights vanished in rounding).
pub open spec fn norm_weight(radius: int, sigma_q16: u32, correction: bool, k: int) -> int {
    let total = raw_weight_sum(radius, sigma_q16, correction, (2 * radius + 1) as nat);
    let raw = raw_weight(k - radius, sigma_q16, correction);
    if total > 0 {
        raw * 0x1_0000_0000 / total
    } else {
        raw
    }
}

/// Sum of the first `k` normalized weights.
pub open spec fn norm_weight_sum(radius: int, sigma_q16: u32, correction: bool, k: nat) -> int
    decreases k,
{
    if k == 0 {
        0
    } else {
        norm_weight_sum(radius, sigma_q16, correction, (k - 1) as nat) + norm_weight(
            radius,
            sigma_q16,
            correction,
            k - 1,
        )
    }
}

/// Sum of the weights of the first `k` table entries.
pub open spec fn table_weight_sum(t: Seq<BlurSample>, k: nat) -> int
    decreases k,
{
    if k == 0 {
        0
    } else {
        table_weight_sum(t, (k - 1) as nat) + t[k - 1].weight_q32
    }
}

proof fn lemma_table_weight_sum_push(t: Seq<BlurSample>, x: BlurSample, k: nat)
    requires
        k <= t.len(),
    ensures
        table_weight_sum(t.push(x), k) == table_weight_sum(t, k),
    decreases k,
{
    if k > 0 {
        lemma_table_weight_sum_push(t, x, (k - 1) as nat);
        assert(t.push(x)[k - 1] == t[k - 1]);
    }
}

/// Every kernel weight is a Q32 fraction of one.
pub proof fn lemma_raw_weight_bounds(i: int, sigma_q16: u32, correction: bool)
    requires
        sigma_q16 > 0,
    ensures
        0 <= raw_weight(i, sigma_q16, correction) <= 0x1_0000_0000,
{
    if correction {
        let s2 = spec_sigma_sqrt2(sigma_q16) as u64;
        crate::gauss::lemma_spec_erf_bounds(spec_half_point(2 * i + 1, s2) as i64);
        crate::gauss::lemma_spec_erf_bounds(spec_half_point(2 * i - 1, s2) as i64);
    } else {
        assert(i * i >= 0) by (nonlinear_arith);
        assert(sigma_q16 * sigma_q16 > 0) by (nonlinear_arith)
            requires
                sigma_q16 > 0,
        ;
        lemma_div_pos_is_pos((i * i) * 0x1_0000_0000_0000_0000, (sigma_q16 * sigma_q16) as int);
        assert((i * i) * 0x1_0000_0000_0000_0000 >= 0) by (nonlinear_arith)
            requires
                i * i >= 0,
        ;
        if plain_arg(i, sigma_q16) < 23 * 0x1_0000_0000 {
            crate::gauss::lemma_spec_exp_neg_bounds(plain_arg(i, sigma_q16) as u64);
        }
    }
}

/// The raw sums are bounded by one per slot.
pub proof fn lemma_raw_weight_sum_bounds(radius: int, sigma_q16: u32, correction: bool, k: nat)
    requires
        sigma_q16 > 0,
    ensures
        0 <= raw_weight_sum(radius, sigma_q16, correction, k) <= k * 0x1_0000_0000,
    decreases k,
{
    if k > 0 {
        lemma_raw_weight_sum_bounds(radius, sigma_q16, correction, (k - 1) as nat);
        lemma_raw_weight_bounds(k - 1 - radius, sigma_q16, correction);
        assert((k - 1) * 0x1_0000_0000 + 0x1_0000_0000 == k * 0x1_0000_0000) by (nonlinear_arith);
    }
}

/// Each raw weight is at most any raw sum that includes its slot.
pub proof fn lemma_raw_weight_le_sum(radius: int, sigma_q16: u32, correction: bool, j: nat, k: nat)
    requires
        sigma_q16 > 0,
        j < k,
    ensures
        raw_weight(j - radius, sigma_q16, correction) <= raw_weight_sum(
            radius,
            sigma_q16,
            correction,
            k,
        ),
    decreases k,
{
    if j == k - 1 {
        lemma_raw_weight_sum_bounds(radius, sigma_q16, correction, (k - 1) as nat);
    } else {
        lemma_raw_weight_le_sum(radius, sigma_q16, correction, j, (k - 1) as nat);
        lemma_raw_weight_bounds(k - 1 - radius, sigma_q16, correction);
    }
}

/// Without band correction the center weight is exactly one, so the
/// raw total of any table that includes the center is positive.
pub proof fn lemma_plain_total_positive(radius: int, sigma_q16: u32)
    requires
        radius >= 1,
        sigma_q16 > 0,
    ensures
        raw_weight_sum(radius, sigma_q16, false, (2 * radius + 1) as nat) >= 0x1_0000_0000,
{
    assert(0 * 0 == 0) by (nonlinear_arith);
    assert(sigma_q16 * sigma_q16 > 0) by (nonlinear_arith)
        requires
            sigma_q16 > 0,
    ;
    assert(plain_arg(0, sigma_q16) == 0);
    crate::gauss::lemma_spec_exp_neg_zero();
    assert(raw_weight(0, sigma_q16, false) == 0x1_0000_0000);
    lemma_raw_weight_le_sum(radius, sigma_q16, false, radius as nat, (2 * radius + 1) as nat);
    assert(radius as nat - radius == 0);
}

/// Normalized weights are Q32 fractions of one.
pub proof fn lemma_norm_weight_bounds(radius: int, sigma_q16: u32, correction: bool, k: int)
    requires
        sigma_q16 > 0,
        0 <= k < 2 * radius + 1,
    ensures
        0 <= norm_weight(radius, sigma_q16, correction, k) <= 0x1_0000_0000,
{
    let total = raw_weight_sum(radius, sigma_q16, correction, (2 * radius + 1) as nat);
    let raw = raw_weight(k - radius, sigma_q16, correction);
    lemma_raw_weight_bounds(k - radius, sigma_q16, correction);
    if total > 0 {
        lemma_raw_weight_le_sum(radius, sigma_q16, correction, k as nat, (2 * radius + 1) as nat);
        lemma_mul_inequality(raw, total, 0x1_0000_0000);
        assert(total * 0x1_0000_0000 == 0x1_0000_0000 * total) by (nonlinear_arith);
        lemma_div_is_ordered(raw * 0x1_0000_0000, total * 0x1_0000_0000, total);
        vstd::arithmetic::div_mod::lemma_div_multiples_vanish(0x1_0000_0000, total);
        assert(raw * 0x1_0000_0000 >= 0) by (nonlinear_arith)
            requires
                raw >= 0,
        ;
        lemma_div_pos_is_pos(raw * 0x1_0000_0000, total);
    }
}

/// The merged sample for pair `p` of a `linear` table: the two source
/// weights add, and the offset is the left offset plus the heavier
/// neighbour's share, `w1 / (w0 + w1)`, in Q32.
pub open spec fn pair_sample(radius: int, sigma_q16: u32, correction: bool, p: int) -> BlurSample {
    let w0 = norm_weight(radius, sigma_q16, correction, 2 * p);
    let w1 = norm_weight(radius, sigma_q16, correction, 2 * p + 1);
    let w = w0 + w1;
    let i = 2 * p - radius;
    BlurSample {
        weight_q32: w as u64,
        offset_q32: (if w > 0 {
            i * 0x1_0000_0000 + w1 * 0x1_0000_0000 / w
        } else {
            i * 0x1_0000_0000
        }) as i64,
    }
}

/// What a correct table looks like, entry by entry.
pub open spec fn table_matches(
    t: Seq<BlurSample>,
    radius: int,
    sigma_q16: u32,
    linear: bool,
    correction: bool,
) -> bool {
    if linear {
        &&& t.len() == radius + 1
        &&& forall|p: int|
            0 <= p < radius ==> t[p] == pair_sample(radius, sigma_q16, correction, p)
        &&& t[radius] == (BlurSample {
            weight_q32: norm_weight(radius, sigma_q16, correction, 2 * radius) as u64,
            offset_q32: (radius * 0x1_0000_0000) as i64,
        })
    } else {
        &&& t.len() == 2 * radius + 1
        &&& forall|k: int|
            0 <= k < t.len() ==> t[k] == (BlurSample {
                weight_q32: norm_weight(radius, sigma_q16, correction, k) as u64,
                offset_q32: ((k - radius) * 0x1_0000_0000) as i64,
            })
    }
}

/// In an unpaired table the offsets are exactly `-radius ..= radius`,
/// in order, and there is one entry per integer offset.
pub proof fn lemma_unpaired_offsets(
    t: Seq<BlurSample>,
    radius: int,
    sigma_q16: u32,
    correction: bool,
)
    requires
        1 <= radius <= 0x3FFF_FFFF,
        table_matches(t, radius, sigma_q16, false, correction),
    ensures
        t.len() == 2 * radius + 1,
        forall|k: int| 0 <= k < t.len() ==> t[k].offset_q32 == (k - radius) * 0x1_0000_0000,
{
    assert forall|k: int| 0 <= k < t.len() implies t[k].offset_q32 == (k - radius)
        * 0x1_0000_0000 by {
        assert(-0x3FFF_FFFF <= k - radius <= 0x3FFF_FFFF + 1);
    }
}

/// In a paired table the tail entry sits exactly at `radius`, and every
/// merged entry's offset lies within its source pair's range
/// `[i, i + 1]` (with `i = 2p - radius` the pair's left offset).
pub proof fn lemma_paired_offsets_in_range(
    t: Seq<BlurSample>,
    radius: int,
    sigma_q16: u32,
    correction: bool,
)
    requires
        1 <= radius <= 0x3FFF_FFFF,
        sigma_q16 > 0,
        table_matches(t, radius, sigma_q16, true, correction),
    ensures
        t.len() == radius + 1,
        t[radius].offset_q32 == radius * 0x1_0000_0000,
        forall|p: int|
            0 <= p < radius ==> (2 * p - radius) * 0x1_0000_0000 <= #[trigger] t[p].offset_q32
                <= (2 * p - radius + 1) * 0x1_0000_0000,
{
    assert forall|p: int|
        0 <= p < radius implies (2 * p - radius) * 0x1_0000_0000 <= #[trigger] t[p].offset_q32
        <= (2 * p - radius + 1) * 0x1_0000_0000 by {
        let w0 = norm_weight(radius, sigma_q16, correction, 2 * p);
        let w1 = norm_weight(radius, sigma_q16, correction, 2 * p + 1);
        let w = w0 + w1;
        let i = 2 * p - radius;
        lemma_norm_weight_bounds(radius, sigma_q16, correction, 2 * p);
        lemma_norm_weight_bounds(radius, sigma_q16, correction, 2 * p + 1);
        assert(t[p] == pair_sample(radius, sigma_q16, correction, p));
        if w > 0 {
            lemma_mul_inequality(w1, w, 0x1_0000_0000);
            assert(w * 0x1_0000_0000 == 0x1_0000_0000 * w) by (nonlinear_arith);
            lemma_div_is_ordered(w1 * 0x1_0000_0000, w * 0x1_0000_0000, w);
            vstd::arithmetic::div_mod::lemma_div_multiples_vanish(0x1_0000_0000, w);
            assert(w1 * 0x1_0000_0000 >= 0) by (nonlinear_arith)
                requires
                    w1 >= 0,
            ;
            lemma_div_pos_is_pos(w1 * 0x1_0000_0000, w);
            assert((i + 1) * 0x1_0000_0000 == i * 0x1_0000_0000 + 0x1_0000_0000)
                by (nonlinear_arith);
        } else {
            assert((i + 1) * 0x1_0000_0000 == i * 0x1_0000_0000 + 0x1_0000_0000)
                by (nonlinear_arith);
        }
    }
}

/// Derive the blur lookup table. The radius is bounded so the table
/// and its Q32 offsets stay representable.
///
/// Fails exactly on a radius below one or a zero sigma. On success the
/// table is pinned entry by entry by `table_matches`; whenever the raw
/// kernel total is positive (always, without band correction) the
/// normalized weights of the whole table sum to one within one Q32
/// unit per slot.
pub fn create_blur_weights_and_offsets(
    radius: i32,
    sigma_q16: u32,
    linear: bool,
    correction: bool,
) -> (res: Result<Vec<BlurSample>, BlurTableError>)
    requires
        radius <= 0x3FFF_FFFF,
    ensures
        res == Err::<Vec<BlurSample>, BlurTableError>(BlurTableError::InvalidRadius) <==> radius
            < 1,
        res == Err::<Vec<BlurSample>, BlurTableError>(BlurTableError::InvalidSigma) <==> (radius
            >= 1 && sigma_q16 == 0),
        res is Ok ==> table_matches(res->Ok_0@, radius as int, sigma_q16, linear, correction),
        res is Ok ==> (raw_weight_sum(
            radius as int,
            sigma_q16,
            correction,
            (2 * radius + 1) as nat,
        ) > 0 ==> 0x1_0000_0000 - (2 * radius + 1) <= table_weight_sum(
            res->Ok_0@,
            res->Ok_0@.len() as nat,
        ) <= 0x1_0000_0000),
        res is Ok && !correction ==> raw_weight_sum(
            radius as int,
            sigma_q16,
            correction,
            (2 * radius + 1) as nat,
        ) > 0,
{
    if radius < 1 {
        return Err(BlurTableError::InvalidRadius);
    }
    if sigma_q16 == 0 {
        return Err(BlurTableError::InvalidSigma);
    }
    let rad: usize = radius as usize;
    let n: usize = 2 * rad + 1;

    let mut weights: Vec<u64> = Vec::new();
    let mut total: u64 = 0;
    let mut k: usize = 0;
    while k < n
        invariant
            k <= n,
            n == 2 * rad + 1,
            rad == radius as int,
            1 <= radius <= 0x3FFF_FFFF,
            sigma_q16 > 0,
            weights@.len() == k,
            forall|j: int|
                0 <= j < k ==> weights@[j] == raw_weight(j - radius, sigma_q16, correction),
            forall|j: int| 0 <= j < k ==> weights@[j] <= 0x1_0000_0000,
            total == raw_weight_sum(radius as int, sigma_q16, correction, k as nat),
            total <= k * 0x1_0000_0000,
        decreases n - k,
    {
        let i: i64 = (k as i64) - (radius as i64);
        let w: u64 = raw_weight_at(i, sigma_q16, correction);
        weights.push(w);
        total = total + w;
        k = k + 1;
    }

    let ghost gtotal: int = total as int;
    let ghost scale: int = 0x1_0000_0000;

    let mut norm: Vec<u64> = Vec::new();
    if total > 0 {
        let ghost mut rem_total: int = 0;
        let mut j: usize = 0;
        while j < n
            invariant
                j <= n,
                n == 2 * rad + 1,
                rad == radius as int,
                1 <= radius <= 0x3FFF_FFFF,
                sigma_q16 > 0,
                weights@.len() == n,
                forall|q: int|
                    0 <= q < n ==> weights@[q] == raw_weight(q - radius, sigma_q16, correction),
                forall|q: int| 0 <= q < n ==> weights@[q] <= 0x1_0000_0000,
                total == raw_weight_sum(radius as int, sigma_q16, correction, n as nat),
                total > 0,
                norm@.len() == j,
                forall|q: int|
                    0 <= q < j ==> norm@[q] == norm_weight(radius as int, sigma_q16, correction, q),
                forall|q: int| 0 <= q < j ==> norm@[q] <= 0x1_0000_0000,
                scale == 0x1_0000_0000,
                scale * raw_weight_sum(radius as int, sigma_q16, correction, j as nat) == total
                    * norm_weight_sum(radius as int, sigma_q16, correction, j as nat) + rem_total,
                0 <= rem_total <= j * (total - 1),
            decreases n - j,
        {
            let w: u64 = weights[j];
            proof {
                lemma_raw_weight_le_sum(
                    radius as int,
                    sigma_q16,
                    correction,
                    j as nat,
                    n as nat,
                );
                lemma_mul_inequality(w as int, total as int, scale);
                assert(total * scale == scale * total) by (nonlinear_arith);
                lemma_div_is_ordered(w * scale, total * scale, total as int);
                vstd::arithmetic::div_mod::lemma_div_multiples_vanish(scale, total as int);
                assert(w * scale >= 0) by (nonlinear_arith)
                    requires
                        w >= 0 && scale > 0,
                ;
                lemma_div_pos_is_pos(w * scale, total as int);
            }
            let nw: u64 = (((w as u128) * 0x1_0000_0000) / (total as u128)) as u64;
            proof {
                vstd::arithmetic::div_mod::lemma_fundamental_div_mod(w * scale, total as int);
                vstd::arithmetic::div_mod::lemma_mod_bound(w * scale, total as int);
                let rem = (w * scale) % (total as int);
                let nsum = norm_weight_sum(radius as int, sigma_q16, correction, j as nat);
                vstd::arithmetic::mul::lemma_mul_is_distributive_add(
                    total as int,
                    nsum,
                    nw as int,
                );
                vstd::arithmetic::mul::lemma_mul_is_distributive_add(
                    total - 1,
                    j as int,
                    1,
                );
                assert(j as int * (total - 1) == (total - 1) * (j as int)) by (nonlinear_arith);
                assert((j + 1) as int * (total - 1) == (total - 1) * ((j + 1) as int))
                    by (nonlinear_arith);
                rem_total = rem_total + rem;
            }
            norm.push(nw);
            j = j + 1;
        }
        proof {
            let t = total as int;
            let nn = n as int;
            let nsum = norm_weight_sum(radius as int, sigma_q16, correction, n as nat);
            assert(scale * t == t * nsum + rem_total);
            assert(nn * (t - 1) == t * nn - nn) by (nonlinear_arith);
            assert(nsum * t == t * nsum && scale * t == t * scale && (nsum + nn) * t == t * (nsum
                + nn)) by (nonlinear_arith);
            assert(nsum * t <= scale * t);
            lemma_mul_inequality_converse(nsum, scale, t);
            vstd::arithmetic::mul::lemma_mul_is_distributive_add(t, nsum, nn);
            assert(scale * t <= (nsum + nn) * t);
            lemma_mul_inequality_converse(scale, nsum + nn, t);
            assert(scale - nn <= nsum <= scale);
        }
    } else {
        let mut j: usize = 0;
        while j < n
            invariant
                j <= n,
                n == 2 * rad + 1,
                rad == radius as int,
                1 <= radius <= 0x3FFF_FFFF,
                sigma_q16 > 0,
                weights@.len() == n,
                forall|q: int|
                    0 <= q < n ==> weights@[q] == raw_weight(q - radius, sigma_q16, correction),
                forall|q: int| 0 <= q < n ==> weights@[q] <= 0x1_0000_0000,
                total == raw_weight_sum(radius as int, sigma_q16, correction, n as nat),
                total == 0,
                norm@.len() == j,
                forall|q: int|
                    0 <= q < j ==> norm@[q] == norm_weight(radius as int, sigma_q16, correction, q),
                forall|q: int| 0 <= q < j ==> norm@[q] <= 0x1_0000_0000,
            decreases n - j,
        {
            let w: u64 = weights[j];
            norm.push(w);
            j = j + 1;
        }
    }

    let ghost nsum_all: int = norm_weight_sum(radius as int, sigma_q16, correction, n as nat);

    if !correction {
        proof {
            lemma_plain_total_positive(radius as int, sigma_q16);
        }
    }

    let mut samples: Vec<BlurSample> = Vec::new();
    if linear {
        let mut p: usize = 0;
        while p < rad
            invariant
                p <= rad,
                n == 2 * rad + 1,
                rad == radius as int,
                1 <= radius <= 0x3FFF_FFFF,
                sigma_q16 > 0,
                norm@.len() == n,
                forall|q: int|
                    0 <= q < n ==> norm@[q] == norm_weight(radius as int, sigma_q16, correction, q),
                forall|q: int| 0 <= q < n ==> norm@[q] <= 0x1_0000_0000,
                samples@.len() == p,
                forall|q: int|
                    0 <= q < p ==> samples@[q] == pair_sample(radius as int, sigma_q16, correction, q),
                table_weight_sum(samples@, p as nat) == norm_weight_sum(
                    radius as int,
                    sigma_q16,
                    correction,
                    (2 * p) as nat,
                ),
            decreases rad - p,
        {
            let w0: u64 = norm[2 * p];
            let w1: u64 = norm[2 * p + 1];
            let w: u64 = w0 + w1;
            let i: i64 = 2 * (p as i64) - (radius as i64);
            let frac: u64 = if w > 0 {
                proof {
                    lemma_mul_inequality(w1 as int, w as int, 0x1_0000_0000);
                    assert(w as int * 0x1_0000_0000 == 0x1_0000_0000 * (w as int))
                        by (nonlinear_arith);
                    lemma_div_is_ordered(
                        w1 * 0x1_0000_0000,
                        (w as int) * 0x1_0000_0000,
                        w as int,
                    );
                    vstd::arithmetic::div_mod::lemma_div_multiples_vanish(
                        0x1_0000_0000,
                        w as int,
                    );
                    assert(w1 * 0x1_0000_0000 >= 0) by (nonlinear_arith)
                        requires
                            w1 >= 0,
                    ;
                    lemma_div_pos_is_pos(w1 * 0x1_0000_0000, w as int);
                }
                (((w1 as u128) * 0x1_0000_0000) / (w as u128)) as u64
            } else {
                0
            };
            let off: i64 = i * 0x1_0000_0000i64 + (frac as i64);
            proof {
                lemma_table_weight_sum_push(
                    samples@,
                    BlurSample { weight_q32: w, offset_q32: off },
                    p as nat,
                );
                let r_ = radius as int;
                assert(norm_weight_sum(r_, sigma_q16, correction, (2 * p + 1) as nat)
                    == norm_weight_sum(r_, sigma_q16, correction, (2 * p) as nat) + norm_weight(
                    r_,
                    sigma_q16,
                    correction,
                    2 * p,
                ));
                assert(norm_weight_sum(r_, sigma_q16, correction, (2 * p + 2) as nat)
                    == norm_weight_sum(r_, sigma_q16, correction, (2 * p + 1) as nat)
                    + norm_weight(r_, sigma_q16, correction, 2 * p + 1));
            }
            samples.push(BlurSample { weight_q32: w, offset_q32: off });
            p = p + 1;
        }
        let wl: u64 = norm[2 * rad];
        proof {
            lemma_table_weight_sum_push(
                samples@,
                BlurSample {
                    weight_q32: wl,
                    offset_q32: ((radius as i64) * 0x1_0000_0000i64) as i64,
                },
                rad as nat,
            );
        }
        samples.push(
            BlurSample { weight_q32: wl, offset_q32: (radius as i64) * 0x1_0000_0000i64 },
        );
        proof {
            assert(table_weight_sum(samples@, (rad + 1) as nat) == norm_weight_sum(
                radius as int,
                sigma_q16,
                correction,
                n as nat,
            ));
        }
        Ok(samples)
    } else {
        let mut k2: usize = 0;
        while k2 < n
            invariant
                k2 <= n,
                n == 2 * rad + 1,
                rad == radius as int,
                1 <= radius <= 0x3FFF_FFFF,
                sigma_q16 > 0,
                norm@.len() == n,
                forall|q: int|
                    0 <= q < n ==> norm@[q] == norm_weight(radius as int, sigma_q16, correction, q),
                forall|q: int| 0 <= q < n ==> norm@[q] <= 0x1_0000_0000,
                samples@.len() == k2,
                forall|q: int|
                    0 <= q < k2 ==> samples@[q] == (BlurSample {
                        weight_q32: norm_weight(radius as int, sigma_q16, correction, q) as u64,
                        offset_q32: ((q - radius) * 0x1_0000_0000) as i64,
                    }),
                table_weight_sum(samples@, k2 as nat) == norm_weight_sum(
                    radius as int,
                    sigma_q16,
                    correction,
                    k2 as nat,
                ),
            decreases n - k2,
        {
            let w: u64 = norm[k2];
            proof {
                assert(-0x3FFF_FFFF <= k2 as int - radius as int <= 0x4000_0000);
            }
            let off: i64 = ((k2 as i64) - (radius as i64)) * 0x1_0000_0000i64;
            proof {
                lemma_table_weight_sum_push(
                    samples@,
                    BlurSample { weight_q32: w, offset_q32: off },
                    k2 as nat,
                );
            }
            samples.push(BlurSample { weight_q32: w, offset_q32: off });
            k2 = k2 + 1;
        }
        Ok(samples)
    }
}

} // verus!
