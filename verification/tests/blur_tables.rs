use clockutils::blur::{create_blur_weights_and_offsets, BlurSample, BlurTableError};

const ONE: f64 = 4294967296.0;

fn weight_sum(table: &[BlurSample]) -> f64 {
    table.iter().map(|s| s.weight_q32 as f64 / ONE).sum()
}

fn q16(x: f64) -> u32 {
    (x * 65536.0) as u32
}

#[test]
fn rejects_radius_below_one() {
    assert_eq!(
        create_blur_weights_and_offsets(0, q16(1.0), false, false),
        Err(BlurTableError::InvalidRadius)
    );
    assert_eq!(
        create_blur_weights_and_offsets(-5, q16(2.0), true, true),
        Err(BlurTableError::InvalidRadius)
    );
}

#[test]
fn rejects_zero_sigma() {
    assert_eq!(
        create_blur_weights_and_offsets(1, 0, false, false),
        Err(BlurTableError::InvalidSigma)
    );
    assert_eq!(
        create_blur_weights_and_offsets(40, 0, true, true),
        Err(BlurTableError::InvalidSigma)
    );
}

#[test]
fn weights_sum_to_one() {
    for &(radius, sigma) in &[(1, 1.0), (3, 0.75), (10, 2.5), (40, 10.0)] {
        for &linear in &[false, true] {
            for &correction in &[false, true] {
                let t = create_blur_weights_and_offsets(radius, q16(sigma), linear, correction)
                    .unwrap();
                let sum = weight_sum(&t);
                assert!(
                    (sum - 1.0).abs() < 1e-5,
                    "sum {sum} for radius {radius} sigma {sigma} linear {linear} correction {correction}"
                );
            }
        }
    }
}

#[test]
fn unpaired_table_shape() {
    let radius = 7;
    let t = create_blur_weights_and_offsets(radius, q16(2.0), false, true).unwrap();
    assert_eq!(t.len(), (2 * radius + 1) as usize);
    for (k, s) in t.iter().enumerate() {
        assert_eq!(s.offset_q32, (k as i64 - radius as i64) << 32);
    }
}

#[test]
fn paired_table_shape() {
    let radius = 7;
    let t = create_blur_weights_and_offsets(radius, q16(2.0), true, true).unwrap();
    assert_eq!(t.len(), (radius + 1) as usize);
    assert_eq!(t[radius as usize].offset_q32, (radius as i64) << 32);
    for (p, s) in t.iter().take(radius as usize).enumerate() {
        let left = 2 * p as i64 - radius as i64;
        assert!(s.offset_q32 >= left << 32);
        assert!(s.offset_q32 <= (left + 1) << 32);
    }
}

#[test]
fn pairing_preserves_weights() {
    let radius = 5;
    let flat = create_blur_weights_and_offsets(radius, q16(1.5), false, true).unwrap();
    let paired = create_blur_weights_and_offsets(radius, q16(1.5), true, true).unwrap();
    for p in 0..radius as usize {
        assert_eq!(
            paired[p].weight_q32,
            flat[2 * p].weight_q32 + flat[2 * p + 1].weight_q32
        );
    }
    assert_eq!(
        paired[radius as usize].weight_q32,
        flat[2 * radius as usize].weight_q32
    );
}

#[test]
fn plain_kernel_matches_gaussian() {
    // radius 1, sigma 1: unnormalized weights are exp(-1), 1, exp(-1).
    let t = create_blur_weights_and_offsets(1, q16(1.0), false, false).unwrap();
    let e1 = (-1.0f64).exp();
    let total = 1.0 + 2.0 * e1;
    let expect = [e1 / total, 1.0 / total, e1 / total];
    for (s, e) in t.iter().zip(expect.iter()) {
        assert!((s.weight_q32 as f64 / ONE - e).abs() < 1e-3);
    }
}

#[test]
fn corrected_kernel_matches_band_integrals() {
    // radius 1, sigma 1: band integrals of the unit Gaussian via erf.
    fn erf(x: f64) -> f64 {
        // Abramowitz-Stegun 7.1.26, the same approximation the library
        // mirrors, evaluated in f64 as an independent reference.
        let sign = if x < 0.0 { -1.0 } else { 1.0 };
        let x = x.abs();
        let t = 1.0 / (1.0 + 0.3275911 * x);
        let y = 1.0
            - (((((1.061405429 * t - 1.453152027) * t) + 1.421413741) * t - 0.284496736) * t
                + 0.254829592)
                * t
                * (-x * x).exp();
        sign * y
    }
    let s = 2.0f64.sqrt();
    let w0 = (erf(0.5 / s) - erf(-0.5 / s)) / 2.0;
    let w1 = (erf(1.5 / s) - erf(0.5 / s)) / 2.0;
    let total = w0 + 2.0 * w1;
    let expect = [w1 / total, w0 / total, w1 / total];
    let t = create_blur_weights_and_offsets(1, q16(1.0), false, true).unwrap();
    for (s, e) in t.iter().zip(expect.iter()) {
        assert!((s.weight_q32 as f64 / ONE - e).abs() < 2e-3, "{} vs {}", s.weight_q32, e);
    }
}
