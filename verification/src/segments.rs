//! 7-segment digital clock state.
//!
//! The clock face is a mesh of LED "islands"; which islands light up is
//! decided here and shipped to the shader as two 32-bit flag words.
//! Word 0 packs the four time digits, seven segment bits each: hour
//! tens at bit 0, hour ones at bit 7, minute tens at bit 14, minute
//! ones at bit 21; a zero hour-tens digit is blanked entirely. Word 1
//! packs the weekday as a rotated one-hot bit (the face's week starts
//! one slot later than the platform's numbering), AM and PM indicator
//! bits at 7 and 8, and the half-second colon blink at bit 9.
use vstd::prelude::*;

verus! {

/// Segment pattern of a decimal digit, one bit per segment.
pub open spec fn spec_digit_segments(d: int) -> u32 {
    if d == 0 {
        0b1110111
    } else if d == 1 {
        0b1000100
    } else if d == 2 {
        0b1011011
    } else if d == 3 {
        0b1011101
    } else if d == 4 {
        0b1101100
    } else if d == 5 {
        0b0111101
    } else if d == 6 {
        0b0111111
    } else if d == 7 {
        0b1010100
    } else if d == 8 {
        0b1111111
    } else {
        0b1111101
    }
}

/// Look up a digit's segment pattern.
pub fn digit_segments(d: u32) -> (f: u32)
    requires
        d < 10,
    ensures
        f == spec_digit_segments(d as int),
{
    if d == 0 {
        0b1110111
    } else if d == 1 {
        0b1000100
    } else if d == 2 {
        0b1011011
    } else if d == 3 {
        0b1011101
    } else if d == 4 {
        0b1101100
    } else if d == 5 {
        0b0111101
    } else if d == 6 {
        0b0111111
    } else if d == 7 {
        0b1010100
    } else if d == 8 {
        0b1111111
    } else {
        0b1111101
    }
}

/// Invert the segment table: the digit whose pattern is `f`, or `None`
/// when no digit produces `f` (for example the blanked hour tens).
pub fn decode_segments(f: u32) -> (d: Option<u32>)
    ensures
        match d {
            Some(v) => v < 10 && spec_digit_segments(v as int) == f,
            None => forall|v: int| 0 <= v < 10 ==> spec_digit_segments(v) != f,
        },
{
    if f == 0b1110111 {
        Some(0)
    } else if f == 0b1000100 {
        Some(1)
    } else if f == 0b1011011 {
        Some(2)
    } else if f == 0b1011101 {
        Some(3)
    } else if f == 0b1101100 {
        Some(4)
    } else if f == 0b0111101 {
        Some(5)
    } else if f == 0b0111111 {
        Some(6)
    } else if f == 0b1010100 {
        Some(7)
    } else if f == 0b1111111 {
        Some(8)
    } else if f == 0b1111101 {
        Some(9)
    } else {
        None
    }
}

/// The segment table is injective: decoding an encoded digit always
/// gives that digit back.
pub proof fn lemma_segment_table_injective(d: int, e: int)
    requires
        0 <= d < 10,
        0 <= e < 10,
        spec_digit_segments(d) == spec_digit_segments(e),
    ensures
        d == e,
{
}

/// The hour figure actually shown: the wall-clock hour, or its 12-hour
/// form (with 0 shown as 12) when the clock is in 12-hour mode.
pub open spec fn display_hour(hour: u32, hr12: bool) -> int {
    if hr12 {
        if hour % 12 == 0 {
            12
        } else {
            (hour % 12) as int
        }
    } else {
        hour as int
    }
}

/// Flag word 0: the four time digits, hour tens blanked when zero.
pub open spec fn spec_flags0(hour: u32, minute: u32, hr12: bool) -> u32 {
    let dh = display_hour(hour, hr12);
    (if dh / 10 != 0 {
        spec_digit_segments(dh / 10)
    } else {
        0
    }) | spec_digit_segments(dh % 10) << 7 | spec_digit_segments(minute as int / 10) << 14
        | spec_digit_segments(minute as int % 10) << 21
}

/// Flag word 1: rotated one-hot weekday, AM and PM bits, colon blink.
pub open spec fn spec_flags1(weekday: u32, am: bool, pm: bool, blink: bool) -> u32 {
    (1u32 << ((weekday + 1) % 7)) | (if am {
        1u32
    } else {
        0
    }) << 7 | (if pm {
        1u32
    } else {
        0
    }) << 8 | (if blink {
        1u32
    } else {
        0
    }) << 9
}

/// The AM indicator lights only in 12-hour mode, before noon.
pub open spec fn spec_am(hour: u32, hr12: bool) -> bool {
    hr12 && hour < 12
}

/// The PM indicator lights only in 12-hour mode, from noon on.
pub open spec fn spec_pm(hour: u32, hr12: bool) -> bool {
    hr12 && hour >= 12
}

/// Compute both flag words from the wall-clock fields.
///
/// `weekday` is 0 for Monday through 6 for Sunday; the blink bit is set
/// in the second half of each second.
pub fn clock_flags(hour: u32, minute: u32, nanosecond: u32, weekday: u32, hr12: bool) -> (r: (
    u32,
    u32,
))
    requires
        hour < 24,
        minute < 60,
        weekday < 7,
    ensures
        r.0 == spec_flags0(hour, minute, hr12),
        r.1 == spec_flags1(weekday, spec_am(hour, hr12), spec_pm(hour, hr12), nanosecond
            > 500_000_000),
{
    let mut hours: u32 = hour;
    let upper_half_sec: bool = nanosecond > 500_000_000;

    let mut am: bool = false;
    let mut pm: bool = false;

    if hr12 {
        if hours >= 12 {
            pm = true;
        } else {
            am = true;
        }
        hours = hours % 12;
        if hours == 0 {
            hours = 12;
        }
    }

    let hour_tens: u32 = if hours / 10 != 0 {
        digit_segments(hours / 10)
    } else {
        0
    };
    let flags0: u32 = hour_tens | digit_segments(hours % 10) << 7 | digit_segments(minute / 10)
        << 14 | digit_segments(minute % 10) << 21;

    let flags1: u32 = (1u32 << ((weekday + 1) % 7)) | (if am {
        1u32
    } else {
        0
    }) << 7 | (if pm {
        1u32
    } else {
        0
    }) << 8 | (if upper_half_sec {
        1u32
    } else {
        0
    }) << 9;

    (flags0, flags1)
}

/// The four 7-bit digit fields of flag word 0, in face order: hour
/// tens, hour ones, minute tens, minute ones.
pub fn flags0_fields(flags0: u32) -> (r: (u32, u32, u32, u32))
    ensures
        r.0 == flags0 & 0x7F,
        r.1 == (flags0 >> 7) & 0x7F,
        r.2 == (flags0 >> 14) & 0x7F,
        r.3 == (flags0 >> 21) & 0x7F,
{
    (flags0 & 0x7F, (flags0 >> 7) & 0x7F, (flags0 >> 14) & 0x7F, (flags0 >> 21) & 0x7F)
}

/// How many palettes the digital clock cycles through.
pub const SELECTOR_LENGTH: u32 = 5;

/// Keys the digital clock reacts to.
#[derive(Clone, Copy, Debug, PartialEq, Eq, Structural)]
pub enum DigiKey {
    /// Space: advance the color palette.
    CyclePalette,
    /// The letter T: toggle 12/24-hour mode.
    ToggleHourMode,
    /// Anything else.
    Other,
}

/// The digital clock's small mutable UI state.
#[derive(Clone, Copy, Debug, PartialEq, Eq)]
pub struct DigiClockState {
    pub is_12_hours: bool,
    pub selector: u32,
}

impl DigiClockState {
    /// The startup state: 24-hour mode, first palette.
    pub fn new() -> (s: DigiClockState)
        ensures
            s.is_12_hours == false,
            s.selector == 0,
    {
        DigiClockState { is_12_hours: false, selector: 0 }
    }

    /// React to a key event: only a fresh press counts; space cycles
    /// the palette, T toggles the hour mode, all else is ignored.
    pub fn on_key(&mut self, pressed: bool, repeat: bool, key: DigiKey)
        requires
            old(self).selector < SELECTOR_LENGTH,
        ensures
            final(self).selector < SELECTOR_LENGTH,
            pressed && !repeat && key == DigiKey::CyclePalette ==> *final(self)
                == (DigiClockState {
                selector: ((old(self).selector + 1) % (SELECTOR_LENGTH as int)) as u32,
                ..*old(self)
            }),
            pressed && !repeat && key == DigiKey::ToggleHourMode ==> *final(self)
                == (DigiClockState { is_12_hours: !old(self).is_12_hours, ..*old(self) }),
            !(pressed && !repeat) || key == DigiKey::Other ==> *final(self) == *old(self),
    {
        if pressed && !repeat {
            match key {
                DigiKey::CyclePalette => {
                    self.selector = (self.selector + 1) % SELECTOR_LENGTH;
                },
                DigiKey::ToggleHourMode => {
                    self.is_12_hours = !self.is_12_hours;
                },
                DigiKey::Other => {},
            }
        }
    }
}

} // verus!
