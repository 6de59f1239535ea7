//! Adaptive drawspace scaling.
//!
//! The shader coordinate system stretches with the window, so every
//! clock draws inside a logical `extent` rectangle and scales its
//! vertices so that the whole extent stays visible whatever the aspect
//! ratio. All derived quantities are kept as exact rationals; the GPU
//! glue converts them to floats only at the upload boundary.
use vstd::prelude::*;

verus! {

/// An exact nonnegative rational number `num / den`.
#[derive(Clone, Copy, PartialEq, Eq, Debug)]
pub struct Ratio {
    pub num: u64,
    pub den: u64,
}

/// A rational is well formed when its denominator is positive.
pub open spec fn ratio_wf(r: Ratio) -> bool {
    r.den > 0
}

/// Two rationals denote the same number (cross multiplication).
pub open spec fn ratio_eq(a: Ratio, b: Ratio) -> bool {
    a.num * b.den == b.num * a.den
}

/// The logical half-width / half-height rectangle guaranteed to stay on
/// screen, in Q16.16 units.
#[derive(Clone, Copy, PartialEq, Eq, Debug)]
pub struct Extent {
    pub half_width_q16: u32,
    pub half_height_q16: u32,
}

pub open spec fn extent_wf(e: Extent) -> bool {
    e.half_width_q16 > 0 && e.half_height_q16 > 0
}

/// Scale factors and pixel density derived from a window resolution and
/// a logical extent. Recomputed on every resize; never cached stale.
#[derive(Clone, Copy, PartialEq, Eq, Debug)]
pub struct DrawspaceScales {
    /// Per-axis factor applied to vertex coordinates.
    pub scale_x: Ratio,
    pub scale_y: Ratio,
    /// The supplied extent.
    pub extent: Extent,
    /// The supplied resolution in pixels.
    pub width: u32,
    pub height: u32,
    /// Screen pixels per logical drawing unit along the clamped axis.
    pub density: Ratio,
}

/// The window is relatively wider than the extent exactly when
/// `width / height > half_width / half_height`.
pub open spec fn window_wider(width: u32, height: u32, extent: Extent) -> bool {
    width * extent.half_height_q16 > extent.half_width_q16 * height
}

/// The exact scaling rule: whichever aspect ratio is larger decides the
/// clamped axis. When the window is wider the extent's ceiling and
/// floor touch the window's, so `scale_y == 1 / half_height` and
/// `scale_x == height / (width * half_height)`; otherwise the side
/// walls touch and the roles swap. Density is half the clamped pixel
/// dimension per logical unit.
pub open spec fn spec_drawspace(width: u32, height: u32, extent: Extent) -> DrawspaceScales {
    let ex = extent.half_width_q16 as u64;
    let ey = extent.half_height_q16 as u64;
    if window_wider(width, height, extent) {
        DrawspaceScales {
            scale_x: Ratio { num: (height * 0x10000) as u64, den: (width * ey) as u64 },
            scale_y: Ratio { num: 0x10000, den: ey },
            extent,
            width,
            height,
            density: Ratio { num: (height * 0x8000) as u64, den: ey },
        }
    } else {
        DrawspaceScales {
            scale_x: Ratio { num: 0x10000, den: ex },
            scale_y: Ratio { num: (width * 0x10000) as u64, den: (height * ex) as u64 },
            extent,
            width,
            height,
            density: Ratio { num: (width * 0x8000) as u64, den: ex },
        }
    }
}

pub open spec fn drawspace_wf(d: DrawspaceScales) -> bool {
    ratio_wf(d.scale_x) && ratio_wf(d.scale_y) && ratio_wf(d.density)
}

impl DrawspaceScales {
    /// Derive the scales for a window resolution and a logical extent.
    /// Pure: the result is a function of the two arguments alone.
    pub fn new(width: u32, height: u32, extent: Extent) -> (d: DrawspaceScales)
        requires
            width > 0,
            height > 0,
            extent_wf(extent),
        ensures
            d == spec_drawspace(width, height, extent),
            drawspace_wf(d),
    {
        let ex: u64 = extent.half_width_q16 as u64;
        let ey: u64 = extent.half_height_q16 as u64;
        proof {
            assert(0 < width * ey <= 0xFFFF_FFFF * 0xFFFF_FFFF && 0 < ex * height <= 0xFFFF_FFFF
                * 0xFFFF_FFFF) by (nonlinear_arith)
                requires
                    0 < width <= 0xFFFF_FFFF && 0 < height <= 0xFFFF_FFFF && 0 < ex
                        <= 0xFFFF_FFFF && 0 < ey <= 0xFFFF_FFFF,
            ;
        }
        let lhs: u64 = (width as u64) * ey;
        let rhs: u64 = ex * (height as u64);
        if lhs > rhs {
            DrawspaceScales {
                scale_x: Ratio { num: (height as u64) * 0x10000, den: lhs },
                scale_y: Ratio { num: 0x10000, den: ey },
                extent,
                width,
                height,
                density: Ratio { num: (height as u64) * 0x8000, den: ey },
            }
        } else {
            DrawspaceScales {
                scale_x: Ratio { num: 0x10000, den: ex },
                scale_y: Ratio { num: (width as u64) * 0x10000, den: rhs },
                extent,
                width,
                height,
                density: Ratio { num: (width as u64) * 0x8000, den: ex },
            }
        }
    }
}

/// Deriving the scales is idempotent: two derivations from identical
/// inputs are identical, field for field.
pub proof fn lemma_drawspace_idempotent(a: DrawspaceScales, b: DrawspaceScales, width: u32, height: u32, extent: Extent)
    requires
        a == spec_drawspace(width, height, extent),
        b == spec_drawspace(width, height, extent),
    ensures
        a == b,
{
}

/// Density scales linearly with resolution for a fixed extent: doubling
/// both pixel dimensions exactly doubles the density.
pub proof fn lemma_density_linear_in_resolution(width: u32, height: u32, extent: Extent)
    requires
        0 < width,
        0 < height,
        2 * width <= u32::MAX,
        2 * height <= u32::MAX,
        extent_wf(extent),
    ensures
        ratio_eq(
            spec_drawspace((2 * width) as u32, (2 * height) as u32, extent).density,
            Ratio {
                num: (2 * spec_drawspace(width, height, extent).density.num) as u64,
                den: spec_drawspace(width, height, extent).density.den,
            },
        ),
{
    let ex = extent.half_width_q16 as int;
    let ey = extent.half_height_q16 as int;
    assert((2 * width) * ey == 2 * (width * ey) && ex * (2 * height) == 2 * (ex * height))
        by (nonlinear_arith);
    assert(window_wider((2 * width) as u32, (2 * height) as u32, extent) == window_wider(
        width,
        height,
        extent,
    ));
    if window_wider(width, height, extent) {
        assert(((2 * height) * 0x8000) * ey == (2 * (height * 0x8000)) * ey) by (nonlinear_arith);
    } else {
        assert(((2 * width) * 0x8000) * ex == (2 * (width * 0x8000)) * ex) by (nonlinear_arith);
    }
}

} // verus!
