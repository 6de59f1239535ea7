//! Portal clock camera and scene selection.
//!
//! An orbital camera circles a platform that links a day world and a
//! night world; whichever world is behind the portal is rendered first
//! into an offscreen target, then sampled by the portal quad. The
//! camera state lives here in exact milli-units (millidegrees for
//! angles, thousandths of a unit for distances); the GPU glue turns
//! them into floats when it builds the matrices.
use vstd::prelude::*;

verus! {

/// Yaw wrap: one full turn in millidegrees.
pub const TURN_MDEG: i64 = 360_000;

/// The magnitude cap for the unclamped fields, far past anything the
/// scene can show but small enough that every update stays exact.
pub const ORBIT_LIMIT_MILLI: i64 = 1_000_000_000;

/// Orbit camera state in milli-units.
#[derive(Clone, Copy, Debug, PartialEq, Eq, Structural)]
pub struct OrbitState {
    /// Yaw in millidegrees, kept within one turn.
    pub phi_mdeg: i64,
    /// Pitch in millidegrees, clamped to straight up / straight down.
    pub theta_mdeg: i64,
    /// Camera distance in thousandths of a unit, clamped to the scene.
    pub distance_milli: i64,
    /// Orbit center height in thousandths of a unit.
    pub elevation_milli: i64,
    /// Whether the camera turns by itself, one degree per frame.
    pub auto_rotation: bool,
}

pub open spec fn orbit_wf(s: OrbitState) -> bool {
    &&& 0 <= s.phi_mdeg < 360_000
    &&& -90_000 <= s.theta_mdeg <= 90_000
    &&& 0 <= s.distance_milli <= 1_000_000
    &&& -1_000_000_000 <= s.elevation_milli <= 1_000_000_000
}

/// Halving as the hardware does it: rounded toward zero.
pub open spec fn spec_div2_trunc(v: int) -> int {
    if v >= 0 {
        v / 2
    } else {
        -((-v) / 2)
    }
}

pub open spec fn spec_clamp(v: int, lo: int, hi: int) -> int {
    if v < lo {
        lo
    } else if v > hi {
        hi
    } else {
        v
    }
}

/// Keys the portal clock reacts to.
#[derive(Clone, Copy, Debug, PartialEq, Eq, Structural)]
pub enum PortalKey {
    /// Arrow up: lower the orbit center.
    CenterDown,
    /// Arrow down: raise the orbit center.
    CenterUp,
    /// Anything else.
    Other,
}

impl OrbitState {
    /// The startup camera: level, facing the day side, 70 units out,
    /// centered 10 units up, turning by itself.
    pub fn new() -> (s: OrbitState)
        ensures
            orbit_wf(s),
            s.phi_mdeg == 0,
            s.theta_mdeg == 0,
            s.distance_milli == 70_000,
            s.elevation_milli == 10_000,
            s.auto_rotation == true,
    {
        OrbitState {
            phi_mdeg: 0,
            theta_mdeg: 0,
            distance_milli: 70_000,
            elevation_milli: 10_000,
            auto_rotation: true,
        }
    }

    /// React to a pressed key: the arrows shift the orbit center by
    /// one unit (held keys repeat), anything else is ignored.
    pub fn on_key(&mut self, pressed: bool, key: PortalKey)
        requires
            orbit_wf(*old(self)),
        ensures
            orbit_wf(*final(self)),
            pressed && key == PortalKey::CenterDown ==> *final(self) == (OrbitState {
                elevation_milli: spec_clamp(
                    old(self).elevation_milli - 1000,
                    -1_000_000_000,
                    1_000_000_000,
                ) as i64,
                ..*old(self)
            }),
            pressed && key == PortalKey::CenterUp ==> *final(self) == (OrbitState {
                elevation_milli: spec_clamp(
                    old(self).elevation_milli + 1000,
                    -1_000_000_000,
                    1_000_000_000,
                ) as i64,
                ..*old(self)
            }),
            !pressed || key == PortalKey::Other ==> *final(self) == *old(self),
    {
        if pressed {
            match key {
                PortalKey::CenterDown => {
                    let e: i64 = self.elevation_milli - 1000;
                    self.elevation_milli = if e < -ORBIT_LIMIT_MILLI {
                        -ORBIT_LIMIT_MILLI
                    } else {
                        e
                    };
                },
                PortalKey::CenterUp => {
                    let e: i64 = self.elevation_milli + 1000;
                    self.elevation_milli = if e > ORBIT_LIMIT_MILLI {
                        ORBIT_LIMIT_MILLI
                    } else {
                        e
                    };
                },
                PortalKey::Other => {},
            }
        }
    }

    /// React to a mouse drag: with the third button held, the drag
    /// steers the camera at half a millidegree per milli-count (pitch
    /// clamped, yaw wrapped to one turn) and stops the auto-rotation.
    /// Both deltas arrive negated and in milli-counts.
    pub fn on_mouse_move(&mut self, dx_milli: i64, dy_milli: i64, buttons: u32)
        requires
            orbit_wf(*old(self)),
            -1_000_000 <= dx_milli <= 1_000_000,
            -1_000_000 <= dy_milli <= 1_000_000,
        ensures
            orbit_wf(*final(self)),
            buttons & 4 != 0 ==> final(self).theta_mdeg == spec_clamp(
                old(self).theta_mdeg + spec_div2_trunc(dy_milli as int),
                -90_000,
                90_000,
            ),
            buttons & 4 != 0 ==> final(self).phi_mdeg == (old(self).phi_mdeg + spec_div2_trunc(
                dx_milli as int,
            ) + 1_080_000) % 360_000,
            buttons & 4 != 0 ==> final(self).auto_rotation == false,
            buttons & 4 != 0 ==> final(self).distance_milli == old(self).distance_milli
                && final(self).elevation_milli == old(self).elevation_milli,
            buttons & 4 == 0 ==> *final(self) == *old(self),
    {
        if buttons & 4 != 0 {
            let t: i64 = self.theta_mdeg + dy_milli / 2;
            self.theta_mdeg = if t < -90_000 {
                -90_000
            } else if t > 90_000 {
                90_000
            } else {
                t
            };
            self.phi_mdeg = (self.phi_mdeg + dx_milli / 2 + 3 * TURN_MDEG) % TURN_MDEG;
            self.auto_rotation = false;
        }
    }

    /// React to the scroll wheel: three units per count, clamped to
    /// the scene. The delta arrives negated and in milli-counts.
    pub fn on_mouse_scroll(&mut self, dy_milli: i64)
        requires
            orbit_wf(*old(self)),
            -1_000_000 <= dy_milli <= 1_000_000,
        ensures
            orbit_wf(*final(self)),
            final(self).distance_milli == spec_clamp(
                old(self).distance_milli + 3 * dy_milli,
                0,
                1_000_000,
            ),
            final(self).phi_mdeg == old(self).phi_mdeg,
            final(self).theta_mdeg == old(self).theta_mdeg,
            final(self).elevation_milli == old(self).elevation_milli,
            final(self).auto_rotation == old(self).auto_rotation,
    {
        let d: i64 = self.distance_milli + 3 * dy_milli;
        self.distance_milli = if d < 0 {
            0
        } else if d > 1_000_000 {
            1_000_000
        } else {
            d
        };
    }

    /// React to a button change: the first button toggles the
    /// auto-rotation.
    pub fn on_mouse_button(&mut self, buttons: u32)
        requires
            orbit_wf(*old(self)),
        ensures
            orbit_wf(*final(self)),
            buttons & 1 != 0 ==> *final(self) == (OrbitState {
                auto_rotation: !old(self).auto_rotation,
                ..*old(self)
            }),
            buttons & 1 == 0 ==> *final(self) == *old(self),
    {
        if buttons & 1 != 0 {
            self.auto_rotation = !self.auto_rotation;
        }
    }

    /// Advance one frame: under auto-rotation the yaw turns one degree
    /// and wraps at a full turn.
    pub fn advance_frame(&mut self)
        requires
            orbit_wf(*old(self)),
        ensures
            orbit_wf(*final(self)),
            old(self).auto_rotation ==> *final(self) == (OrbitState {
                phi_mdeg: ((old(self).phi_mdeg + 1000) % 360_000) as i64,
                ..*old(self)
            }),
            !old(self).auto_rotation ==> *final(self) == *old(self),
    {
        if self.auto_rotation {
            self.phi_mdeg = (self.phi_mdeg + 1000) % TURN_MDEG;
        }
    }
}

/// The two digits shown in the other world, packed tens-high: the hour
/// pair over the day scene, the minute pair over the night scene.
pub open spec fn spec_portal_digits(facing_day: bool, hour: u32, minute: u32) -> u32 {
    let sel = if facing_day {
        hour
    } else {
        minute
    };
    ((sel / 10) << 16 | (sel % 10)) as u32
}

/// Pack the digit pair for the world the portal currently shows.
pub fn select_portal_digits(facing_day: bool, hour: u32, minute: u32) -> (d: u32)
    requires
        hour < 24,
        minute < 60,
    ensures
        d == spec_portal_digits(facing_day, hour, minute),
{
    let sel: u32 = if facing_day {
        hour
    } else {
        minute
    };
    (sel / 10) << 16 | (sel % 10)
}

} // verus!
