//! Mechanical counter wheel angles.
//!
//! Six digit wheels show HH:MM:SS. Each digit card sits a tenth of a
//! turn further around its wheel, so a digit's rest angle is
//! `digit / 10` turns (kept in Q32 turns here; the GPU glue scales to
//! radians). During the first half second of each second a wheel
//! animates from the digit it showed half a second ago to the current
//! one; a wheel that wrapped (9 to 0) animates to the current digit
//! plus ten so the rotation never runs backwards.
use vstd::arithmetic::div_mod::{
    lemma_div_is_ordered, lemma_div_multiples_vanish, lemma_div_pos_is_pos,
};
use vstd::arithmetic::mul::lemma_mul_inequality;
use vstd::prelude::*;

verus! {

/// Length of the wheel animation in nanoseconds; at most one second.
pub const ANIM_DURATION: u32 = 500_000_000;

/// Rest angle of a digit card, in Q32 turns.
pub open spec fn spec_digit_angle(d: int) -> int {
    d * 0x1_0000_0000 / 10
}

/// Rest angle of a digit card, in Q32 turns. Digits up to 19 occur for
/// wrapped wheels.
pub fn digit_angle(d: u8) -> (a: u64)
    requires
        d < 20,
    ensures
        a == spec_digit_angle(d as int),
        a <= 2 * 0x1_0000_0000,
{
    (d as u64) * 0x1_0000_0000 / 10
}

/// The six wheel digits of a HH:MM:SS display.
#[derive(Clone, Copy, Debug, PartialEq, Eq, Structural)]
pub struct TimeDigits {
    pub hour_tens: u8,
    pub hour_ones: u8,
    pub minute_tens: u8,
    pub minute_ones: u8,
    pub second_tens: u8,
    pub second_ones: u8,
}

pub open spec fn time_digits_wf(d: TimeDigits) -> bool {
    d.hour_tens < 10 && d.hour_ones < 10 && d.minute_tens < 10 && d.minute_ones < 10
        && d.second_tens < 10 && d.second_ones < 10
}

/// Split a wall-clock time into its six wheel digits.
pub fn extract_digits_from_time(hour: u32, minute: u32, second: u32) -> (d: TimeDigits)
    requires
        hour < 24,
        minute < 60,
        second < 60,
    ensures
        time_digits_wf(d),
        d.hour_tens == hour / 10 && d.hour_ones == hour % 10,
        d.minute_tens == minute / 10 && d.minute_ones == minute % 10,
        d.second_tens == second / 10 && d.second_ones == second % 10,
{
    TimeDigits {
        hour_tens: (hour / 10) as u8,
        hour_ones: (hour % 10) as u8,
        minute_tens: (minute / 10) as u8,
        minute_ones: (minute % 10) as u8,
        second_tens: (second / 10) as u8,
        second_ones: (second % 10) as u8,
    }
}

/// The digit a wheel animates toward: the current digit, plus ten when
/// the wheel wrapped past zero, so the motion is forward only.
pub open spec fn spec_wheel_target(start: int, end: int) -> int {
    if end < start {
        end + 10
    } else {
        end
    }
}

/// A wheel's angle in Q32 turns, `nanos` into the current second:
/// within the animation window, the exact linear interpolation from
/// the previous digit's angle to the target's; afterwards, the current
/// digit's rest angle.
pub open spec fn spec_wheel_angle(start: int, end: int, nanos: u32) -> int {
    if nanos > 500_000_000 {
        spec_digit_angle(end)
    } else {
        let a0 = spec_digit_angle(start);
        let a1 = spec_digit_angle(spec_wheel_target(start, end));
        ((500_000_000 - nanos) * a0 + nanos * a1) / 500_000_000
    }
}

proof fn lemma_lerp_in_range(a0: int, a1: int, nanos: int, m: int)
    requires
        0 <= a0 <= m,
        0 <= a1 <= m,
        0 <= nanos <= 500_000_000,
    ensures
        0 <= ((500_000_000 - nanos) * a0 + nanos * a1) / 500_000_000 <= m,
{
    let blend = (500_000_000 - nanos) * a0 + nanos * a1;
    lemma_mul_inequality(a0, m, 500_000_000 - nanos);
    lemma_mul_inequality(a1, m, nanos);
    assert((500_000_000 - nanos) * a0 == a0 * (500_000_000 - nanos) && nanos * a1 == a1 * nanos
        && (500_000_000 - nanos) * a0 >= 0 && nanos * a1 >= 0) by (nonlinear_arith)
        requires
            0 <= a0 && 0 <= a1 && 0 <= nanos <= 500_000_000,
    ;
    assert(a0 * (500_000_000 - nanos) + a1 * nanos <= m * 500_000_000) by (nonlinear_arith)
        requires
            0 <= a0 <= m && 0 <= a1 <= m && 0 <= nanos <= 500_000_000,
    ;
    assert(m * 500_000_000 == 500_000_000 * m) by (nonlinear_arith);
    lemma_div_is_ordered(blend, 500_000_000 * m, 500_000_000);
    lemma_div_multiples_vanish(m, 500_000_000);
    lemma_div_pos_is_pos(blend, 500_000_000);
}

/// One wheel's angle from its previous digit, current digit, and the
/// nanosecond within the current second.
pub fn wheel_angle(start: u8, end: u8, nanos: u32) -> (a: u64)
    requires
        start < 10,
        end < 10,
    ensures
        a == spec_wheel_angle(start as int, end as int, nanos),
        a <= 2 * 0x1_0000_0000,
{
    if nanos > ANIM_DURATION {
        return digit_angle(end);
    }
    let target: u8 = if end < start {
        end + 10
    } else {
        end
    };
    let a0: u64 = digit_angle(start);
    let a1: u64 = digit_angle(target);
    proof {
        lemma_lerp_in_range(a0 as int, a1 as int, nanos as int, (2 * 0x1_0000_0000) as int);
    }
    let num: u128 = ((ANIM_DURATION - nanos) as u128) * (a0 as u128) + (nanos as u128) * (a1
        as u128);
    (num / (ANIM_DURATION as u128)) as u64
}

/// Angles of all six wheels, in Q32 turns.
#[derive(Clone, Copy, Debug, PartialEq, Eq)]
pub struct WheelAngles {
    pub hour_tens: u64,
    pub hour_ones: u64,
    pub minute_tens: u64,
    pub minute_ones: u64,
    pub second_tens: u64,
    pub second_ones: u64,
}

/// Angles of all six wheels: `now` holds the current digits, `ago` the
/// digits half a second earlier, `nanos` the position within the
/// current second.
pub fn calc_wheel_angles(now: &TimeDigits, ago: &TimeDigits, nanos: u32) -> (a: WheelAngles)
    requires
        time_digits_wf(*now),
        time_digits_wf(*ago),
    ensures
        a.hour_tens == spec_wheel_angle(ago.hour_tens as int, now.hour_tens as int, nanos),
        a.hour_ones == spec_wheel_angle(ago.hour_ones as int, now.hour_ones as int, nanos),
        a.minute_tens == spec_wheel_angle(ago.minute_tens as int, now.minute_tens as int, nanos),
        a.minute_ones == spec_wheel_angle(ago.minute_ones as int, now.minute_ones as int, nanos),
        a.second_tens == spec_wheel_angle(ago.second_tens as int, now.second_tens as int, nanos),
        a.second_ones == spec_wheel_angle(ago.second_ones as int, now.second_ones as int, nanos),
{
    WheelAngles {
        hour_tens: wheel_angle(ago.hour_tens, now.hour_tens, nanos),
        hour_ones: wheel_angle(ago.hour_ones, now.hour_ones, nanos),
        minute_tens: wheel_angle(ago.minute_tens, now.minute_tens, nanos),
        minute_ones: wheel_angle(ago.minute_ones, now.minute_ones, nanos),
        second_tens: wheel_angle(ago.second_tens, now.second_tens, nanos),
        second_ones: wheel_angle(ago.second_ones, now.second_ones, nanos),
    }
}

/// The digit angles grow with the digit.
proof fn lemma_digit_angle_monotone(d1: int, d2: int)
    requires
        0 <= d1 <= d2,
    ensures
        spec_digit_angle(d1) <= spec_digit_angle(d2),
{
    lemma_mul_inequality(d1, d2, 0x1_0000_0000);
    lemma_div_is_ordered(d1 * 0x1_0000_0000, d2 * 0x1_0000_0000, 10);
}

/// At the end of the animation window the wheel sits exactly on the
/// target digit's angle — one full extra turn ahead for a wrapped
/// wheel, which is the same card.
pub proof fn lemma_wheel_angle_completes(start: int, end: int)
    requires
        0 <= start < 10,
        0 <= end < 10,
    ensures
        spec_wheel_angle(start, end, 500_000_000) == spec_digit_angle(
            spec_wheel_target(start, end),
        ),
{
    let a1 = spec_digit_angle(spec_wheel_target(start, end));
    lemma_div_pos_is_pos(spec_wheel_target(start, end) * 0x1_0000_0000, 10);
    lemma_div_multiples_vanish(a1, 500_000_000);
    assert(500_000_000 * a1 == a1 * 500_000_000) by (nonlinear_arith);
    assert(0 * spec_digit_angle(start) == 0) by (nonlinear_arith);
}

/// Within the animation window a wheel only ever moves forward: the
/// angle is monotone in the elapsed time, wrap or no wrap, because the
/// target digit never sits behind the starting digit.
pub proof fn lemma_wheel_angle_monotone(start: int, end: int, n1: u32, n2: u32)
    requires
        0 <= start < 10,
        0 <= end < 10,
        n1 <= n2 <= 500_000_000,
    ensures
        spec_wheel_angle(start, end, n1) <= spec_wheel_angle(start, end, n2),
{
    let target = spec_wheel_target(start, end);
    lemma_digit_angle_monotone(start, target);
    let a0 = spec_digit_angle(start);
    let a1 = spec_digit_angle(target);
    let b1 = (500_000_000 - n1) * a0 + n1 * a1;
    let b2 = (500_000_000 - n2) * a0 + n2 * a1;
    assert(b2 - b1 == (n2 - n1) * (a1 - a0)) by (nonlinear_arith)
        requires
            b1 == (500_000_000 - n1) * a0 + n1 * a1 && b2 == (500_000_000 - n2) * a0 + n2 * a1,
    ;
    assert((n2 - n1) * (a1 - a0) >= 0) by (nonlinear_arith)
        requires
            n1 <= n2 && a0 <= a1,
    ;
    lemma_div_is_ordered(b1, b2, 500_000_000);
}

} // verus!
