use clockutils::color::{lerp_u32_color, rgba32};
use clockutils::polar::{
    calc_angles, ease_out_quint_q32, palette, transition_t_q32, PolarClockState,
};
use clockutils::portal::{select_portal_digits, OrbitState, PortalKey};
use clockutils::segments::{
    clock_flags, decode_segments, digit_segments, flags0_fields, DigiClockState, DigiKey,
};
use clockutils::walltime::{current_clock_flags, now_and_earlier, now_local};
use clockutils::wheels::{extract_digits_from_time, wheel_angle};

const ONE: u64 = 1 << 32;

#[test]
fn rgba32_packs_channels() {
    assert_eq!(rgba32(0x12, 0x34, 0x56, 0x78), 0x12345678);
    assert_eq!(rgba32(0xFF, 0, 0, 0xFF), 0xFF0000FF);
}

#[test]
fn lerp_midpoint_is_mid_gray() {
    let mid = lerp_u32_color(0x000000FF, 0xFFFFFFFF, 1, 2);
    assert_eq!(mid, 0x7F7F7FFF);
    for shift in [24, 16, 8] {
        let c = (mid >> shift) & 0xFF;
        assert!((c as i64 - 127).abs() <= 1);
    }
}

#[test]
fn lerp_endpoints() {
    assert_eq!(lerp_u32_color(0x11223344, 0x55667788, 0, 1), 0x11223344);
    assert_eq!(lerp_u32_color(0x11223344, 0x55667788, 1, 1), 0x55667788);
}

#[test]
fn digit_8_lights_all_segments() {
    assert_eq!(digit_segments(8), 0b1111111);
}

#[test]
fn digit_1_lights_two_segments() {
    assert_eq!(digit_segments(1), 0b1000100);
}

#[test]
fn hour_tens_zero_is_blanked() {
    let (flags0, _) = clock_flags(9, 30, 0, 0, false);
    assert_eq!(flags0 & 0x7F, 0);
    let (flags0, _) = clock_flags(19, 30, 0, 0, false);
    assert_eq!(flags0 & 0x7F, digit_segments(1));
}

#[test]
fn segment_decode_inverts_encode() {
    for d in 0..10 {
        assert_eq!(decode_segments(digit_segments(d)), Some(d));
    }
    assert_eq!(decode_segments(0), None);
}

#[test]
fn flags_decode_back_at_1405() {
    // 14:05:09 in 24-hour mode: the four digit fields decode to 1 4 0 5.
    let (flags0, flags1) = clock_flags(14, 5, 0, 2, false);
    let (f1, f2, f3, f4) = flags0_fields(flags0);
    assert_eq!(decode_segments(f1), Some(1));
    assert_eq!(decode_segments(f2), Some(4));
    assert_eq!(decode_segments(f3), Some(0));
    assert_eq!(decode_segments(f4), Some(5));
    // 24-hour mode: neither AM nor PM.
    assert_eq!(flags1 & (1 << 7), 0);
    assert_eq!(flags1 & (1 << 8), 0);
    // weekday 2 lights bit (2 + 1) % 7 == 3.
    assert_eq!(flags1 & 0x7F, 1 << 3);
}

#[test]
fn twelve_hour_mode_indicators() {
    let (_, pm) = clock_flags(14, 5, 0, 0, true);
    assert_ne!(pm & (1 << 8), 0);
    assert_eq!(pm & (1 << 7), 0);
    let (flags0, am) = clock_flags(0, 0, 0, 0, true);
    assert_ne!(am & (1 << 7), 0);
    // Midnight shows 12 in 12-hour mode.
    let (t, o, _, _) = flags0_fields(flags0);
    assert_eq!(decode_segments(t), Some(1));
    assert_eq!(decode_segments(o), Some(2));
}

#[test]
fn blink_bit_in_second_half() {
    let (_, early) = clock_flags(1, 2, 499_999_999, 0, false);
    let (_, late) = clock_flags(1, 2, 500_000_001, 0, false);
    assert_eq!(early & (1 << 9), 0);
    assert_ne!(late & (1 << 9), 0);
}

#[test]
fn digi_state_keys() {
    let mut s = DigiClockState::new();
    s.on_key(true, false, DigiKey::CyclePalette);
    assert_eq!(s.selector, 1);
    s.on_key(true, true, DigiKey::CyclePalette); // repeats ignored
    assert_eq!(s.selector, 1);
    s.on_key(true, false, DigiKey::ToggleHourMode);
    assert!(s.is_12_hours);
    for _ in 0..4 {
        s.on_key(true, false, DigiKey::CyclePalette);
    }
    assert_eq!(s.selector, 0);
}

#[test]
fn wheel_wrap_is_monotone() {
    // 9 -> 0 across the animation window never runs backwards.
    let samples = [0, 125_000_000, 250_000_000, 375_000_000, 500_000_000];
    let mut last = 0u64;
    for (i, &n) in samples.iter().enumerate() {
        let a = wheel_angle(9, 0, n);
        if i > 0 {
            assert!(a >= last, "angle decreased at sample {i}");
        }
        last = a;
    }
    assert_eq!(wheel_angle(9, 0, 0), 9 * ONE / 10);
    assert_eq!(wheel_angle(9, 0, 500_000_000), ONE);
    // After the window the wheel rests at the current digit.
    assert_eq!(wheel_angle(9, 0, 500_000_001), 0);
}

#[test]
fn wheel_no_wrap_interpolates() {
    assert_eq!(wheel_angle(3, 4, 0), 3 * ONE / 10);
    assert_eq!(wheel_angle(3, 4, 250_000_000), (3 * ONE / 10 + 4 * ONE / 10) / 2);
    assert_eq!(wheel_angle(3, 4, 500_000_000), 4 * ONE / 10);
}

#[test]
fn digits_of_time() {
    let d = extract_digits_from_time(14, 5, 9);
    assert_eq!(
        (d.hour_tens, d.hour_ones, d.minute_tens, d.minute_ones, d.second_tens, d.second_ones),
        (1, 4, 0, 5, 0, 9)
    );
}

#[test]
fn polar_angles_at_1405_09() {
    let a = calc_angles(14, 5, 9, 0);
    assert_eq!(a.seconds_turns_q32, 644245094);
    assert_eq!(a.minutes_turns_q32, 368651359);
    assert_eq!(a.hours_turns_q32, 746548829);
    let z = calc_angles(0, 0, 0, 0);
    assert_eq!(z.seconds_turns_q32, 0);
    assert_eq!(z.minutes_turns_q32, 0);
    assert_eq!(z.hours_turns_q32, 0);
}

#[test]
fn transition_clamps_and_eases() {
    assert_eq!(transition_t_q32(1000, 1000), 0);
    assert_eq!(transition_t_q32(1250, 1000), ONE / 2);
    assert_eq!(transition_t_q32(2000, 1000), ONE);
    assert_eq!(transition_t_q32(500, 1000), 0); // clock stepped back
    assert_eq!(ease_out_quint_q32(0), 0);
    assert_eq!(ease_out_quint_q32(ONE), ONE);
    // Ease of one half: 1 - (1/2)^5 = 31/32.
    let e = ease_out_quint_q32(ONE / 2);
    assert!((e as i64 - (31 * ONE as i64 / 32)).abs() <= 16);
}

#[test]
fn polar_state_cycles_palettes() {
    let mut s = PolarClockState::new();
    assert_eq!(s.color_index, 5);
    s.on_key(true, false, true, 12345);
    assert_eq!(s.color_index, 0);
    assert_eq!(s.last_change_ts, 12345);
    s.on_key(false, false, true, 99999);
    assert_eq!(s.last_change_ts, 12345);
    // Every palette entry is reachable and distinct from its neighbor.
    for i in 0..6 {
        let a = palette(i);
        let b = palette((i + 1) % 6);
        assert_ne!((a.hour, a.minute, a.second), (b.hour, b.minute, b.second));
    }
}

#[test]
fn portal_digit_selection() {
    assert_eq!(select_portal_digits(true, 14, 5), (1 << 16) | 4);
    assert_eq!(select_portal_digits(false, 14, 5), 5);
    assert_eq!(select_portal_digits(false, 14, 59), (5 << 16) | 9);
}

#[test]
fn orbit_state_updates() {
    let mut o = OrbitState::new();
    assert!(o.auto_rotation);
    assert_eq!(o.distance_milli, 70_000);

    // Scroll far out: clamped to the scene's 1000 units.
    o.on_mouse_scroll(1_000_000);
    assert_eq!(o.distance_milli, 1_000_000);
    o.on_mouse_scroll(-1_000_000);
    assert_eq!(o.distance_milli, 0);

    // Drag with the third button: pitch clamps, auto-rotation stops.
    o.on_mouse_move(0, 1_000_000, 1 << 2);
    assert_eq!(o.theta_mdeg, 90_000);
    assert!(!o.auto_rotation);
    o.on_mouse_move(0, -1_000_000, 1 << 2);
    assert_eq!(o.theta_mdeg, -90_000);

    // Without the button nothing moves.
    let phi = o.phi_mdeg;
    o.on_mouse_move(500, 500, 0);
    assert_eq!(o.phi_mdeg, phi);

    // First button toggles auto-rotation; a frame then turns 1 degree.
    o.on_mouse_button(1);
    assert!(o.auto_rotation);
    let phi = o.phi_mdeg;
    o.advance_frame();
    assert_eq!(o.phi_mdeg, (phi + 1000) % 360_000);

    // Arrows shift the orbit center.
    o.on_key(true, PortalKey::CenterDown);
    assert_eq!(o.elevation_milli, 9_000);
    o.on_key(true, PortalKey::CenterUp);
    o.on_key(true, PortalKey::CenterUp);
    assert_eq!(o.elevation_milli, 11_000);
}

#[test]
fn wall_clock_samples_are_well_formed() {
    let t = now_local();
    assert!(t.hour < 24 && t.minute < 60 && t.second < 60);
    assert!(t.nanosecond < 2_000_000_000 && t.weekday < 7);
    assert!(t.epoch_millis > 1_500_000_000_000); // after 2017, sanity

    let (now, ago) = now_and_earlier(500_000_000);
    assert!(now.hour < 24 && ago.hour < 24);
    // The second sample really sits half a second back, give or take
    // the skew between the two clock reads.
    assert!((now.epoch_millis - ago.epoch_millis - 500).abs() <= 250);

    let (t, flags0, flags1) = current_clock_flags(false);
    let (f0, f1) = clock_flags(t.hour, t.minute, t.nanosecond, t.weekday, false);
    assert_eq!((flags0, flags1), (f0, f1));
}
