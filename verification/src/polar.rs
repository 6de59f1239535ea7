//! Polar ring/disk clock state.
//!
//! Three rings sweep out the second, minute and hour fractions of the
//! face as arcs; a small disk marks each arc's tip. Angles are kept as
//! exact Q32 fractions of a full turn (the GPU glue scales to
//! radians). Pressing space starts a half-second color transition to
//! the next palette, eased by `1 - (1 - t)^5` and applied as a linear
//! interpolation of each palette color.
use crate::color::{lerp_u32_color, spec_color_lerp};
use crate::fixedpoint::{mul_q32, q32_mul, Q32_ONE};
use vstd::arithmetic::div_mod::{
    lemma_div_is_ordered, lemma_div_multiples_vanish, lemma_div_pos_is_pos,
};
use vstd::prelude::*;

verus! {

/// Milliseconds of a palette transition.
pub const COLOR_ANIM_MS: u64 = 500;

/// How many palettes the polar clock cycles through.
pub const PALETTE_LENGTH: usize = 6;

/// The second hand's turn fraction in Q32: elapsed nanoseconds of the
/// minute over a minute.
pub open spec fn spec_seconds_turns(second: u32, nanos: u32) -> int {
    (second * 1_000_000_000 + nanos) * 0x1_0000_0000 / 60_000_000_000
}

/// The minute hand's turn fraction in Q32, seconds folded in.
pub open spec fn spec_minutes_turns(minute: u32, second: u32, nanos: u32) -> int {
    (minute * 60_000_000_000 + second * 1_000_000_000 + nanos) * 0x1_0000_0000
        / 3_600_000_000_000
}

/// The hour hand's turn fraction in Q32 on a 12-hour face, minutes and
/// seconds folded in.
pub open spec fn spec_hours_turns(hour: u32, minute: u32, second: u32, nanos: u32) -> int {
    ((hour % 12) * 3_600_000_000_000 + minute * 60_000_000_000 + second * 1_000_000_000 + nanos)
        * 0x1_0000_0000 / 43_200_000_000_000
}

/// The three hand fractions, in Q32 turns.
#[derive(Clone, Copy, Debug, PartialEq, Eq)]
pub struct PolarAngles {
    pub hours_turns_q32: u64,
    pub minutes_turns_q32: u64,
    pub seconds_turns_q32: u64,
}

/// Exact turn fractions of the three hands.
pub fn calc_angles(hour: u32, minute: u32, second: u32, nanos: u32) -> (a: PolarAngles)
    requires
        hour < 24,
        minute < 60,
        second < 60,
        nanos < 2_000_000_000,
    ensures
        a.seconds_turns_q32 == spec_seconds_turns(second, nanos),
        a.minutes_turns_q32 == spec_minutes_turns(minute, second, nanos),
        a.hours_turns_q32 == spec_hours_turns(hour, minute, second, nanos),
        a.seconds_turns_q32 <= 0x1_1000_0000,
        a.minutes_turns_q32 <= 0x1_1000_0000,
        a.hours_turns_q32 <= 0x1_1000_0000,
{
    let sn: u64 = (second as u64) * 1_000_000_000 + (nanos as u64);
    let s_num: u128 = (sn as u128) * 0x1_0000_0000;
    proof {
        lemma_div_is_ordered(
            s_num as int,
            (61_000_000_000 * 0x1_0000_0000) as int,
            60_000_000_000,
        );
        lemma_div_pos_is_pos(s_num as int, 60_000_000_000);
    }
    let seconds_q32: u64 = (s_num / 60_000_000_000) as u64;

    let mn: u64 = (minute as u64) * 60_000_000_000 + sn;
    let m_num: u128 = (mn as u128) * 0x1_0000_0000;
    proof {
        lemma_div_is_ordered(
            m_num as int,
            (3_601_000_000_000 * 0x1_0000_0000) as int,
            3_600_000_000_000,
        );
        lemma_div_pos_is_pos(m_num as int, 3_600_000_000_000);
    }
    let minutes_q32: u64 = (m_num / 3_600_000_000_000) as u64;

    let hn: u64 = ((hour % 12) as u64) * 3_600_000_000_000 + mn;
    let h_num: u128 = (hn as u128) * 0x1_0000_0000;
    proof {
        lemma_div_is_ordered(
            h_num as int,
            (43_201_000_000_000 * 0x1_0000_0000) as int,
            43_200_000_000_000,
        );
        lemma_div_pos_is_pos(h_num as int, 43_200_000_000_000);
    }
    let hours_q32: u64 = (h_num / 43_200_000_000_000) as u64;

    PolarAngles {
        hours_turns_q32: hours_q32,
        minutes_turns_q32: minutes_q32,
        seconds_turns_q32: seconds_q32,
    }
}

/// The rotation that places a hand's tip marker: the face's zero sits
/// at three o'clock and hands run clockwise from twelve, so the
/// marker's polar angle for a hand fraction `f` is `5/4 - f` turns.
pub fn marker_angle_q32(f: u64) -> (a: u64)
    requires
        f <= 0x1_4000_0000,
    ensures
        a == 0x1_4000_0000 - f,
{
    0x1_4000_0000 - f
}

/// The five colors of one palette entry.
#[derive(Clone, Copy, Debug, PartialEq, Eq, Structural)]
pub struct ColorCombo {
    pub hour: u32,
    pub minute: u32,
    pub second: u32,
    pub disk: u32,
    pub background: u32,
}

/// The fixed palette cycle.
pub open spec fn spec_palette(i: int) -> ColorCombo {
    if i == 0 {
        ColorCombo {
            hour: 0x171738_FF,
            minute: 0x2E1760_FF,
            second: 0x3423A6_FF,
            disk: 0xFFFFFF_FF,
            background: 0x000000_FF,
        }
    } else if i == 1 {
        ColorCombo {
            hour: 0x1B1B3A_FF,
            minute: 0x693668_FF,
            second: 0xA74482_FF,
            disk: 0xFFFFFF_FF,
            background: 0x000000_FF,
        }
    } else if i == 2 {
        ColorCombo {
            hour: 0x576232_FF,
            minute: 0xB06F25_FF,
            second: 0x92531D_FF,
            disk: 0xFFFFFF_FF,
            background: 0xFFFFFF_FF,
        }
    } else if i == 3 {
        ColorCombo {
            hour: 0x152614_FF,
            minute: 0x1E441E_FF,
            second: 0x2A7221_FF,
            disk: 0xFFFFFF_FF,
            background: 0xFFFFFF_FF,
        }
    } else if i == 4 {
        ColorCombo {
            hour: 0x000706_FF,
            minute: 0x5F6083_FF,
            second: 0x4347A5_FF,
            disk: 0xFFFFFF_FF,
            background: 0xFFFFFF_FF,
        }
    } else {
        ColorCombo {
            hour: 0xCFFCFF_FF,
            minute: 0xAAEFDF_FF,
            second: 0x9EE37D_FF,
            disk: 0x000000_FF,
            background: 0x000000_FF,
        }
    }
}

/// Look up a palette entry.
pub fn palette(i: usize) -> (c: ColorCombo)
    requires
        i < PALETTE_LENGTH,
    ensures
        c == spec_palette(i as int),
{
    if i == 0 {
        ColorCombo {
            hour: 0x171738_FF,
            minute: 0x2E1760_FF,
            second: 0x3423A6_FF,
            disk: 0xFFFFFF_FF,
            background: 0x000000_FF,
        }
    } else if i == 1 {
        ColorCombo {
            hour: 0x1B1B3A_FF,
            minute: 0x693668_FF,
            second: 0xA74482_FF,
            disk: 0xFFFFFF_FF,
            background: 0x000000_FF,
        }
    } else if i == 2 {
        ColorCombo {
            hour: 0x576232_FF,
            minute: 0xB06F25_FF,
            second: 0x92531D_FF,
            disk: 0xFFFFFF_FF,
            background: 0xFFFFFF_FF,
        }
    } else if i == 3 {
        ColorCombo {
            hour: 0x152614_FF,
            minute: 0x1E441E_FF,
            second: 0x2A7221_FF,
            disk: 0xFFFFFF_FF,
            background: 0xFFFFFF_FF,
        }
    } else if i == 4 {
        ColorCombo {
            hour: 0x000706_FF,
            minute: 0x5F6083_FF,
            second: 0x4347A5_FF,
            disk: 0xFFFFFF_FF,
            background: 0xFFFFFF_FF,
        }
    } else {
        ColorCombo {
            hour: 0xCFFCFF_FF,
            minute: 0xAAEFDF_FF,
            second: 0x9EE37D_FF,
            disk: 0x000000_FF,
            background: 0x000000_FF,
        }
    }
}

/// Transition position in Q32: elapsed milliseconds since the last
/// palette change over the animation length, clamped to one; a clock
/// that stepped backwards counts as no elapsed time.
pub open spec fn spec_transition_t(now_ms: u64, last_ms: u64) -> int {
    let diff = if now_ms >= last_ms {
        now_ms - last_ms
    } else {
        0
    };
    let clamped = if diff >= 500 {
        500
    } else {
        diff
    };
    clamped * 0x1_0000_0000 / 500
}

/// Q32 transition position from wall-clock milliseconds.
pub fn transition_t_q32(now_ms: u64, last_ms: u64) -> (t: u64)
    ensures
        t == spec_transition_t(now_ms, last_ms),
        t <= Q32_ONE,
{
    let diff: u64 = if now_ms >= last_ms {
        now_ms - last_ms
    } else {
        0
    };
    let clamped: u64 = if diff >= COLOR_ANIM_MS {
        COLOR_ANIM_MS
    } else {
        diff
    };
    let num: u128 = (clamped as u128) * 0x1_0000_0000;
    proof {
        lemma_div_is_ordered(num as int, (500 * 0x1_0000_0000) as int, 500);
        lemma_div_multiples_vanish(0x1_0000_0000, 500);
    }
    (num / 500) as u64
}

/// The easing curve `1 - (1 - t)^5` on Q32 fractions, each power
/// floored as `mul_q32` computes it.
pub open spec fn spec_ease_out_quint(t: u64) -> int {
    let u = (0x1_0000_0000 - t) as u64;
    let u2 = q32_mul(u, u) as u64;
    let u4 = q32_mul(u2, u2) as u64;
    let u5 = q32_mul(u4, u) as u64;
    0x1_0000_0000 - u5
}

proof fn lemma_q32_mul_unit(a: u64, b: u64)
    requires
        a <= 0x1_0000_0000,
        b <= 0x1_0000_0000,
    ensures
        0 <= q32_mul(a, b) <= 0x1_0000_0000,
{
    assert(0 <= a * b <= 0x1_0000_0000 * 0x1_0000_0000) by (nonlinear_arith)
        requires
            a <= 0x1_0000_0000 && b <= 0x1_0000_0000,
    ;
    lemma_div_is_ordered(a * b, (0x1_0000_0000 * 0x1_0000_0000) as int, 0x1_0000_0000);
    lemma_div_pos_is_pos(a * b, 0x1_0000_0000);
}

/// Ease a Q32 transition position.
pub fn ease_out_quint_q32(t: u64) -> (r: u64)
    requires
        t <= Q32_ONE,
    ensures
        r == spec_ease_out_quint(t),
        r <= Q32_ONE,
{
    let u: u64 = Q32_ONE - t;
    proof {
        lemma_q32_mul_unit(u, u);
    }
    let u2: u64 = mul_q32(u, u);
    proof {
        lemma_q32_mul_unit(u2, u2);
    }
    let u4: u64 = mul_q32(u2, u2);
    proof {
        lemma_q32_mul_unit(u4, u);
    }
    let u5: u64 = mul_q32(u4, u);
    Q32_ONE - u5
}

/// The polar clock's small mutable UI state.
#[derive(Clone, Copy, Debug, PartialEq, Eq)]
pub struct PolarClockState {
    /// Index of the palette the transition started from.
    pub color_index: usize,
    /// Wall-clock milliseconds at which the transition started.
    pub last_change_ts: u64,
}

impl PolarClockState {
    /// The startup state: the last palette, no transition running.
    pub fn new() -> (s: PolarClockState)
        ensures
            s.color_index == PALETTE_LENGTH - 1,
            s.last_change_ts == 0,
    {
        PolarClockState { color_index: PALETTE_LENGTH - 1, last_change_ts: 0 }
    }

    /// React to a key event: a fresh press of space advances the
    /// palette (wrapping) and starts a transition at `now_ms`.
    pub fn on_key(&mut self, pressed: bool, repeat: bool, cycle: bool, now_ms: u64)
        requires
            old(self).color_index < PALETTE_LENGTH,
        ensures
            final(self).color_index < PALETTE_LENGTH,
            pressed && !repeat && cycle ==> *final(self) == (PolarClockState {
                color_index: ((old(self).color_index + 1) % (PALETTE_LENGTH as int)) as usize,
                last_change_ts: now_ms,
            }),
            !(pressed && !repeat && cycle) ==> *final(self) == *old(self),
    {
        if pressed && !repeat && cycle {
            self.color_index = (self.color_index + 1) % PALETTE_LENGTH;
            self.last_change_ts = now_ms;
        }
    }
}

/// The five blended colors of one frame.
#[derive(Clone, Copy, Debug, PartialEq, Eq)]
pub struct FrameColors {
    pub hour: u32,
    pub minute: u32,
    pub second: u32,
    pub disk: u32,
    pub background: u32,
}

/// Blend each palette color of the running transition: from the
/// current palette toward the next, at the eased transition position.
pub fn polar_frame_colors(state: &PolarClockState, now_ms: u64) -> (c: FrameColors)
    requires
        state.color_index < PALETTE_LENGTH,
    ensures
        ({
            let p0 = spec_palette(state.color_index as int);
            let p1 = spec_palette((state.color_index + 1) % (PALETTE_LENGTH as int));
            let e = spec_ease_out_quint(spec_transition_t(now_ms, state.last_change_ts) as u64)
                as u64;
            &&& c.hour == spec_color_lerp(p0.hour, p1.hour, e, 0x1_0000_0000)
            &&& c.minute == spec_color_lerp(p0.minute, p1.minute, e, 0x1_0000_0000)
            &&& c.second == spec_color_lerp(p0.second, p1.second, e, 0x1_0000_0000)
            &&& c.disk == spec_color_lerp(p0.disk, p1.disk, e, 0x1_0000_0000)
            &&& c.background == spec_color_lerp(p0.background, p1.background, e, 0x1_0000_0000)
        }),
{
    let p0 = palette(state.color_index);
    let p1 = palette((state.color_index + 1) % PALETTE_LENGTH);
    let t = transition_t_q32(now_ms, state.last_change_ts);
    let e = ease_out_quint_q32(t);
    FrameColors {
        hour: lerp_u32_color(p0.hour, p1.hour, e, Q32_ONE),
        minute: lerp_u32_color(p0.minute, p1.minute, e, Q32_ONE),
        second: lerp_u32_color(p0.second, p1.second, e, Q32_ONE),
        disk: lerp_u32_color(p0.disk, p1.disk, e, Q32_ONE),
        background: lerp_u32_color(p0.background, p1.background, e, Q32_ONE),
    }
}

} // verus!
