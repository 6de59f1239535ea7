//! Frame orchestration: what each clock draws per frame, and what a
//! resize must rebuild.
//!
//! The digital clock draws in three strictly ordered passes — forward
//! render of the segment geometry into offscreen target 0, a
//! horizontal blur of target 0 into target 1, and a vertical blur of
//! target 1 composited onto the surface. A resize recreates both
//! offscreen targets, rescales the drawspace, and regenerates the blur
//! table from the new pixel density; this is the one place where
//! resize and blur recomputation are coupled.
//!
//! The portal clock draws the world behind the portal into an
//! offscreen target first, then the facing world (portal quad plus the
//! platform's two lightmapped sides) onto the surface.
use crate::blur::{
    create_blur_weights_and_offsets, table_matches, BlurSample, BlurTableError,
};
use crate::portal::spec_portal_digits;
use crate::scaling::{
    extent_wf, ratio_wf, spec_drawspace, window_wider, DrawspaceScales, Extent, Ratio,
};
use vstd::arithmetic::div_mod::{
    lemma_div_is_ordered, lemma_div_is_ordered_by_denominator, lemma_div_pos_is_pos,
};
use vstd::prelude::*;

verus! {

/// Where a render pass writes.
#[derive(Clone, Copy, Debug, PartialEq, Eq, Structural)]
pub enum PassTarget {
    /// One of the clock's offscreen color targets.
    Offscreen(u32),
    /// The presented surface.
    Surface,
}

/// One full-screen blur pass: sample one offscreen target along one
/// axis, write the result to another target.
#[derive(Clone, Copy, Debug, PartialEq, Eq, Structural)]
pub struct BlurPass {
    /// The offscreen target sampled.
    pub source: u32,
    /// Where the filtered image goes.
    pub target: PassTarget,
    /// Vertical rather than horizontal sampling direction.
    pub vertical: bool,
}

/// The digital clock's per-frame pass sequence.
#[derive(Clone, Copy, Debug, PartialEq, Eq, Structural)]
pub struct DigitalFramePlan {
    /// The offscreen target the forward pass renders into.
    pub forward_target: u32,
    pub first_blur: BlurPass,
    pub second_blur: BlurPass,
}

/// The three passes of the digital clock's glow pipeline, in issue
/// order. Each pass reads exactly what the pass before it wrote, so
/// submitting them in order is what makes the frame correct.
pub fn digital_frame_plan() -> (p: DigitalFramePlan)
    ensures
        p.forward_target == 0,
        p.first_blur == (BlurPass { source: 0, target: PassTarget::Offscreen(1), vertical: false }),
        p.second_blur == (BlurPass { source: 1, target: PassTarget::Surface, vertical: true }),
        p.first_blur.source == p.forward_target,
        p.first_blur.target == PassTarget::Offscreen(p.second_blur.source),
{
    DigitalFramePlan {
        forward_target: 0,
        first_blur: BlurPass { source: 0, target: PassTarget::Offscreen(1), vertical: false },
        second_blur: BlurPass { source: 1, target: PassTarget::Surface, vertical: true },
    }
}

/// The digital clock's logical extent: 2.5 by 1.40625 half-units, in
/// Q16.
pub fn digital_extent() -> (e: Extent)
    ensures
        e.half_width_q16 == 163840,
        e.half_height_q16 == 92160,
        extent_wf(e),
{
    Extent { half_width_q16: 163840, half_height_q16: 92160 }
}

/// The glow radius adapted to the pixel density: `(density / 204) * 40`
/// texels, floored.
pub open spec fn spec_blur_radius(density: Ratio) -> int {
    density.num * 40 / (density.den * 204)
}

/// Derive the glow radius from a pixel density.
pub fn blur_radius_from_density(d: Ratio) -> (r: u64)
    requires
        ratio_wf(d),
        d.num <= 0x1_0000_0000_0000,
    ensures
        r == spec_blur_radius(d),
{
    proof {
        assert(d.den * 204 >= 204) by (nonlinear_arith)
            requires
                d.den >= 1,
        ;
        lemma_div_is_ordered_by_denominator(d.num * 40, 204, d.den * 204);
        lemma_div_is_ordered(
            d.num * 40 / 204,
            (0x1_0000_0000_0000 * 40) as int,
            204,
        );
        lemma_div_pos_is_pos(d.num * 40, d.den * 204);
    }
    let num: u128 = (d.num as u128) * 40;
    let den: u128 = (d.den as u128) * 204;
    (num / den) as u64
}

/// Everything a digital clock resize rebuilds.
pub struct DigitalResize {
    /// The new drawspace scales for the new resolution.
    pub scales: DrawspaceScales,
    /// The new glow radius, from the new density.
    pub blur_radius: i32,
    /// The new sigma: a quarter of the radius, in Q16.
    pub blur_sigma_q16: u32,
    /// The regenerated paired, band-corrected blur table.
    pub table: Vec<BlurSample>,
}

/// Rebuild the digital clock's size-dependent state for a new window
/// resolution. Fails exactly when the window is so small that the
/// derived glow radius vanishes.
pub fn digital_resize(width: u32, height: u32) -> (r: Result<DigitalResize, BlurTableError>)
    requires
        0 < width <= 2_000_000,
        0 < height <= 2_000_000,
    ensures
        ({
            let scales = spec_drawspace(width, height, Extent {
                half_width_q16: 163840,
                half_height_q16: 92160,
            });
            let radius = spec_blur_radius(scales.density);
            &&& (r is Ok <==> radius >= 1)
            &&& (r is Err ==> r->Err_0 == BlurTableError::InvalidRadius)
            &&& (r is Ok ==> r->Ok_0.scales == scales)
            &&& (r is Ok ==> r->Ok_0.blur_radius == radius)
            &&& (r is Ok ==> r->Ok_0.blur_sigma_q16 == radius * 16384)
            &&& (r is Ok ==> table_matches(
                r->Ok_0.table@,
                radius,
                (radius * 16384) as u32,
                true,
                true,
            ))
        }),
{
    let extent = digital_extent();
    let scales = DrawspaceScales::new(width, height, extent);
    proof {
        if window_wider(width, height, extent) {
            assert(scales.density.num <= 2_000_000 * 0x8000);
        } else {
            assert(scales.density.num <= 2_000_000 * 0x8000);
        }
        assert(scales.density.den * 204 >= 92160 * 204) by (nonlinear_arith)
            requires
                scales.density.den >= 92160,
        ;
        lemma_div_is_ordered_by_denominator(
            scales.density.num * 40,
            (92160 * 204) as int,
            scales.density.den * 204,
        );
        lemma_div_is_ordered(
            scales.density.num * 40,
            (2_000_000 * 0x8000 * 40) as int,
            (92160 * 204) as int,
        );
    }
    let radius: u64 = blur_radius_from_density(scales.density);
    if radius < 1 {
        return Err(BlurTableError::InvalidRadius);
    }
    let sigma_q16: u32 = (radius as u32) * 16384;
    let tr = create_blur_weights_and_offsets(radius as i32, sigma_q16, true, true);
    let table = match tr {
        Ok(t) => t,
        Err(e) => {
            proof {
                assert(e == BlurTableError::InvalidRadius || e == BlurTableError::InvalidSigma);
                assert(e != BlurTableError::InvalidRadius);
                assert(e != BlurTableError::InvalidSigma);
            }
            Vec::new()
        },
    };
    Ok(DigitalResize { scales, blur_radius: radius as i32, blur_sigma_q16: sigma_q16, table })
}

/// The portal clock's per-frame decisions: which world the offscreen
/// pass renders and how, and how the facing pass composes the surface.
#[derive(Clone, Copy, Debug, PartialEq, Eq, Structural)]
pub struct PortalFramePlan {
    /// The offscreen world is drawn rotated half a turn (night side).
    pub other_world_rotated: bool,
    /// The offscreen world's celestial body: sun by day, moon by night.
    pub celestial_is_sun: bool,
    /// Which terrain lightmap the offscreen pass binds: 0 day, 1 night.
    pub lightmap_index: usize,
    /// The packed digit pair shown in the offscreen world.
    pub digits: u32,
    /// Rotation of the platform's first draw on the surface (day side).
    pub platform_first_rotated: bool,
    /// Rotation of the platform's second draw (night side).
    pub platform_second_rotated: bool,
}

/// Decide one portal frame. The offscreen pass renders whichever world
/// the camera does not face — the night world rotated half a turn so
/// one camera serves both — showing the hour pair by day and the
/// minute pair by night; the surface pass then draws the portal quad
/// and the platform twice, day side first.
pub fn portal_frame_plan(facing_day: bool, hour: u32, minute: u32) -> (p: PortalFramePlan)
    requires
        hour < 24,
        minute < 60,
    ensures
        p.other_world_rotated == !facing_day,
        p.celestial_is_sun == facing_day,
        p.lightmap_index == (if facing_day {
            0int
        } else {
            1int
        }),
        p.digits == spec_portal_digits(facing_day, hour, minute),
        p.platform_first_rotated == false,
        p.platform_second_rotated == true,
{
    PortalFramePlan {
        other_world_rotated: !facing_day,
        celestial_is_sun: facing_day,
        lightmap_index: if facing_day {
            0
        } else {
            1
        },
        digits: crate::portal::select_portal_digits(facing_day, hour, minute),
        platform_first_rotated: false,
        platform_second_rotated: true,
    }
}

} // verus!
