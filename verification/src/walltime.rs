//! Wall-clock sampling.
//!
//! The clocks are driven by local time. The two functions that read
//! the platform clock are the only trusted code in this crate: their
//! contracts state just the field ranges that chrono documents, and
//! everything computed from a sample is verified for every value the
//! contracts admit.
use chrono::{Datelike, Timelike};
use vstd::prelude::*;

use crate::polar::{calc_angles, spec_hours_turns, spec_minutes_turns, spec_seconds_turns,
    PolarAngles};
use crate::segments::{clock_flags, spec_am, spec_flags0, spec_flags1, spec_pm};
use crate::wheels::{calc_wheel_angles, extract_digits_from_time, spec_wheel_angle, TimeDigits,
    WheelAngles, ANIM_DURATION};

verus! {

/// One sampled instant of local wall-clock time.
#[derive(Clone, Copy, Debug, PartialEq, Eq)]
pub struct TimeOfDay {
    pub hour: u32,
    pub minute: u32,
    pub second: u32,
    /// Reaches up to 1_999_999_999 during a leap second.
    pub nanosecond: u32,
    /// 0 for Monday through 6 for Sunday.
    pub weekday: u32,
    /// Milliseconds since the Unix epoch; negative before 1970.
    pub epoch_millis: i64,
}

pub open spec fn time_of_day_wf(t: TimeOfDay) -> bool {
    t.hour < 24 && t.minute < 60 && t.second < 60 && t.nanosecond < 2_000_000_000 && t.weekday < 7
}

/// Relies on chrono::Local::now and the Timelike / Datelike accessors:
/// hour below 24, minute and second below 60, nanosecond below two
/// billion (leap second form), weekday numbered from Monday.
#[verifier::external_body]
pub fn now_local() -> (t: TimeOfDay)
    ensures
        time_of_day_wf(t),
{
    let now = chrono::Local::now();
    TimeOfDay {
        hour: now.hour(),
        minute: now.minute(),
        second: now.second(),
        nanosecond: now.nanosecond(),
        weekday: now.weekday() as u32,
        epoch_millis: now.timestamp_millis(),
    }
}

/// Relies on chrono::Local::now, DateTime minus TimeDelta, and the
/// same accessors as `now_local`: one sample of the current instant
/// and of the instant `nanos_back` nanoseconds earlier.
#[verifier::external_body]
pub fn now_and_earlier(nanos_back: u32) -> (r: (TimeOfDay, TimeOfDay))
    ensures
        time_of_day_wf(r.0),
        time_of_day_wf(r.1),
{
    let now = chrono::Local::now();
    let ago = now - chrono::TimeDelta::nanoseconds(nanos_back as i64);
    let part = |d: chrono::DateTime<chrono::Local>| TimeOfDay {
        hour: d.hour(),
        minute: d.minute(),
        second: d.second(),
        nanosecond: d.nanosecond(),
        weekday: d.weekday() as u32,
        epoch_millis: d.timestamp_millis(),
    };
    (part(now), part(ago))
}

/// Sample the clock and compute the digital clock's flag words for it.
pub fn current_clock_flags(hr12: bool) -> (r: (TimeOfDay, u32, u32))
    ensures
        time_of_day_wf(r.0),
        r.1 == spec_flags0(r.0.hour, r.0.minute, hr12),
        r.2 == spec_flags1(r.0.weekday, spec_am(r.0.hour, hr12), spec_pm(r.0.hour, hr12),
            r.0.nanosecond > 500_000_000),
{
    let t = now_local();
    let (flags0, flags1) = clock_flags(t.hour, t.minute, t.nanosecond, t.weekday, hr12);
    (t, flags0, flags1)
}

/// Sample the clock twice, half a second apart, and compute all six
/// wheel angles of the mechanical counter for the pair.
pub fn current_wheel_angles() -> (r: (TimeOfDay, TimeOfDay, WheelAngles))
    ensures
        time_of_day_wf(r.0),
        time_of_day_wf(r.1),
        r.2.hour_tens == spec_wheel_angle(r.1.hour as int / 10, r.0.hour as int / 10, r.0.nanosecond),
        r.2.hour_ones == spec_wheel_angle(r.1.hour as int % 10, r.0.hour as int % 10, r.0.nanosecond),
        r.2.minute_tens == spec_wheel_angle(r.1.minute as int / 10, r.0.minute as int / 10, r.0.nanosecond),
        r.2.minute_ones == spec_wheel_angle(r.1.minute as int % 10, r.0.minute as int % 10, r.0.nanosecond),
        r.2.second_tens == spec_wheel_angle(r.1.second as int / 10, r.0.second as int / 10, r.0.nanosecond),
        r.2.second_ones == spec_wheel_angle(r.1.second as int % 10, r.0.second as int % 10, r.0.nanosecond),
{
    let (now, ago) = now_and_earlier(ANIM_DURATION);
    let now_digits: TimeDigits = extract_digits_from_time(now.hour, now.minute, now.second);
    let ago_digits: TimeDigits = extract_digits_from_time(ago.hour, ago.minute, ago.second);
    let angles = calc_wheel_angles(&now_digits, &ago_digits, now.nanosecond);
    (now, ago, angles)
}

/// Sample the clock and compute the polar clock's hand fractions.
pub fn current_polar_angles() -> (r: (TimeOfDay, PolarAngles))
    ensures
        time_of_day_wf(r.0),
        r.1.seconds_turns_q32 == spec_seconds_turns(r.0.second, r.0.nanosecond),
        r.1.minutes_turns_q32 == spec_minutes_turns(r.0.minute, r.0.second, r.0.nanosecond),
        r.1.hours_turns_q32 == spec_hours_turns(r.0.hour, r.0.minute, r.0.second, r.0.nanosecond),
{
    let t = now_local();
    let a = calc_angles(t.hour, t.minute, t.second, t.nanosecond);
    (t, a)
}

} // verus!
