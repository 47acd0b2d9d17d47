//! Orbit-camera bookkeeping.
//!
//! The camera looks from `camera_position` toward `look_at`; dragging the
//! pointer orbits the look-at point around the camera. The offset from camera
//! to target is described in spherical coordinates `(r, theta, phi)`; a drag
//! changes only the two angles, wrapped back into one turn, and never the
//! radius. Converting the angles back to a Cartesian offset needs
//! trigonometry and is done by the unverified shell; this module owns every
//! exact step: the wraparound, the quadrant selection for `phi`, the
//! substitution of zero for components the conversion leaves undefined, and
//! the drag state machine that turns pointer samples into per-tick deltas.

use vstd::prelude::*;
use vstd::arithmetic::div_mod::lemma_fundamental_div_mod;
use vstd::arithmetic::div_mod::lemma_fundamental_div_mod_converse_mod;
use vstd::arithmetic::div_mod::lemma_mod_bound;
use vstd::arithmetic::div_mod::lemma_small_mod;
use crate::fixed::SCALE;
use crate::fixed::mag;
use crate::fixed::div_trunc;
use crate::fixed::fx_ok;
use crate::fixed::q_trunc;
use crate::vec3::V3;
use crate::vec3::Vec3;

verus! {

/// One full turn, in fixed-point radians (two pi, truncated).
pub const TWO_PI_FX: i64 = 6_283_185;

/// Bound on the scalars `looparound` accepts: wide enough for any sum of a
/// stored angle and a per-tick delta, and small enough that wrapping can
/// never overflow.
pub const LOOP_BOUND: i64 = 4_000_000_000_000;

/// What `looparound(v, lower, upper)` returns: `v` moved into `[lower,
/// upper)` by whole range widths — `lower` plus the Euclidean remainder of
/// `v - lower` by the width.
pub open spec fn looparound_spec(v: int, lower: int, upper: int) -> int
    recommends
        lower < upper,
{
    lower + (v - lower) % (upper - lower)
}

/// Wrap `v` into the range `[lower, upper)`: every value lands inside the
/// range, and a value already inside it is returned unchanged.
pub fn looparound(v: i64, lower: i64, upper: i64) -> (r: i64)
    requires
        lower < upper,
        -LOOP_BOUND <= v <= LOOP_BOUND,
        -LOOP_BOUND <= lower,
        upper <= LOOP_BOUND,
    ensures
        r as int == looparound_spec(v as int, lower as int, upper as int),
        lower <= r < upper,
        lower <= v < upper ==> r == v,
{
    let width: i64 = upper - lower;
    let d: i64 = v - lower;
    let wm: u128 = width as u128;
    let m: u128 = if d >= 0 {
        (d as u128) % wm
    } else {
        let n: u128 = mag(d);
        let rm: u128 = n % wm;
        proof {
            let ghost q = (n as int) / (width as int);
            lemma_fundamental_div_mod(n as int, width as int);
            if rm == 0 {
                assert((d as int) == (-q) * (width as int) + 0) by (nonlinear_arith)
                    requires
                        n as int == (width as int) * q + 0,
                        d as int == -(n as int),
                ;
                lemma_fundamental_div_mod_converse_mod(d as int, width as int, -q, 0);
            } else {
                assert((d as int) == (-q - 1) * (width as int) + ((width - rm) as int))
                    by (nonlinear_arith)
                    requires
                        n as int == (width as int) * q + (rm as int),
                        d as int == -(n as int),
                ;
                lemma_fundamental_div_mod_converse_mod(
                    d as int,
                    width as int,
                    -q - 1,
                    (width - rm) as int,
                );
            }
        }
        if rm == 0 {
            0
        } else {
            wm - rm
        }
    };
    proof {
        lemma_mod_bound(d as int, width as int);
        if 0 <= d < width {
            lemma_small_mod(d as nat, width as nat);
        }
    }
    lower + (m as i64)
}

/// The camera-to-target offset in spherical coordinates: radius, inclination
/// `theta` and azimuth `phi`, all fixed-point (angles in radians).
#[derive(Clone, Copy, Debug, PartialEq, Eq, Structural)]
pub struct Spherical {
    pub r: i64,
    pub theta: i64,
    pub phi: i64,
}

impl Spherical {
    /// One orbit tick: add the per-tick angular deltas and wrap both angles
    /// back into one turn. The radius is never modified, so the distance the
    /// spherical form encodes is preserved exactly.
    pub fn orbit_step(self, d_theta: i64, d_phi: i64) -> (r: Spherical)
        requires
            fx_ok(self.theta as int),
            fx_ok(self.phi as int),
            fx_ok(d_theta as int),
            fx_ok(d_phi as int),
        ensures
            r.r == self.r,
            r.theta as int == looparound_spec(self.theta + d_theta, 0, TWO_PI_FX as int),
            r.phi as int == looparound_spec(self.phi + d_phi, 0, TWO_PI_FX as int),
            0 <= r.theta < TWO_PI_FX,
            0 <= r.phi < TWO_PI_FX,
    {
        Spherical {
            r: self.r,
            theta: looparound(self.theta + d_theta, 0, TWO_PI_FX),
            phi: looparound(self.phi + d_phi, 0, TWO_PI_FX),
        }
    }
}

/// How the azimuth `phi` of a point `(x, y, ...)` is obtained from the
/// arctangent of `y / x`: which quadrant correction applies, or which
/// axis-aligned constant, or that `phi` is undefined because the point lies
/// on the vertical axis.
#[derive(Clone, Copy, Debug, PartialEq, Eq, Structural)]
pub enum PhiBranch {
    /// `x > 0`: `phi = atan(y / x)`.
    Atan,
    /// `x < 0, y >= 0`: `phi = atan(y / x) + pi`.
    AtanPlusPi,
    /// `x < 0, y < 0`: `phi = atan(y / x) - pi`.
    AtanMinusPi,
    /// `x == 0, y > 0`: `phi = pi / 2`.
    PosHalfPi,
    /// `x == 0, y < 0`: `phi = -pi / 2`.
    NegHalfPi,
    /// `x == 0, y == 0`: `phi` is undefined.
    Undefined,
}

/// The quadrant case that defines the azimuth of `(x, y, ...)`.
pub open spec fn phi_branch_spec(x: int, y: int) -> PhiBranch {
    if x > 0 {
        PhiBranch::Atan
    } else if x < 0 && y >= 0 {
        PhiBranch::AtanPlusPi
    } else if x < 0 && y < 0 {
        PhiBranch::AtanMinusPi
    } else if x == 0 && y > 0 {
        PhiBranch::PosHalfPi
    } else if x == 0 && y < 0 {
        PhiBranch::NegHalfPi
    } else {
        PhiBranch::Undefined
    }
}

/// Select the quadrant case that defines the azimuth of `(x, y, ...)`.
/// The azimuth is defined at `x == 0` through the sign of `y`, and is
/// undefined only on the vertical axis itself.
pub fn phi_branch(x: i64, y: i64) -> (r: PhiBranch)
    ensures
        r == phi_branch_spec(x as int, y as int),
        r == PhiBranch::Undefined <==> x == 0 && y == 0,
{
    if x > 0 {
        PhiBranch::Atan
    } else if x < 0 && y >= 0 {
        PhiBranch::AtanPlusPi
    } else if x < 0 && y < 0 {
        PhiBranch::AtanMinusPi
    } else if x == 0 && y > 0 {
        PhiBranch::PosHalfPi
    } else if x == 0 && y < 0 {
        PhiBranch::NegHalfPi
    } else {
        PhiBranch::Undefined
    }
}

/// Rebuild a Cartesian offset from components the spherical-to-Cartesian
/// conversion produced, substituting zero for every component the conversion
/// left undefined (a singular angle), so that an undefined value never
/// reaches the camera state.
pub fn resolve_components(x: Option<i64>, y: Option<i64>, z: Option<i64>) -> (v: Vec3)
    ensures
        v.x == if x is Some { x.unwrap() } else { 0 },
        v.y == if y is Some { y.unwrap() } else { 0 },
        v.z == if z is Some { z.unwrap() } else { 0 },
{
    Vec3 {
        x: match x { Some(c) => c, None => 0 },
        y: match y { Some(c) => c, None => 0 },
        z: match z { Some(c) => c, None => 0 },
    }
}

/// Side length, in pixels, of the window the pointer coordinates live in.
pub const WINDOW_DIM: u64 = 1024;

/// What `to_camera_space` computes: the world-space point where the pointer
/// position `(px, py)` (fixed-point pixel coordinates) lands on the camera's
/// canvas plane at distance `canv` — the camera position plus the canvas
/// offset plus the pointer's offsets along the canvas axes. The result is
/// undefined (`None`) when a canvas axis degenerates to the zero vector.
pub open spec fn to_camera_space_spec(px: int, py: int, cam: V3, look: V3, canv: int) -> Option<
    V3,
> {
    let dir = look.minus(cam).unit();
    let right_raw = dir.crossed(V3 { x: 0, y: SCALE as int, z: 0 });
    if right_raw.is_zero() {
        None
    } else {
        let right = right_raw.unit();
        let down_raw = dir.crossed(right);
        if down_raw.is_zero() {
            None
        } else {
            let down = down_raw.unit();
            let to_canvas = dir.scaled(canv);
            let ix = q_trunc(2 * px, WINDOW_DIM as int) - SCALE;
            let iy = q_trunc(2 * py, WINDOW_DIM as int) - SCALE;
            Some(cam.plus(to_canvas).plus(right.scaled(ix)).plus(down.scaled(iy)))
        }
    }
}

/// Project a pointer position onto the camera's canvas plane: the returned
/// world-space point is where a drag sample at `(px, py)` sits at canvas
/// distance `canv_dist` in front of the camera. Returns `None` exactly when a
/// canvas axis degenerates to the zero vector (the view points straight along
/// world-up, or rounding collapses an axis).
#[verifier::rlimit(60)]
pub fn to_camera_space(px: i64, py: i64, cam_pos: Vec3, look_at: Vec3, canv_dist: i64) -> (r:
    Option<Vec3>)
    requires
        fx_ok(px as int),
        fx_ok(py as int),
        cam_pos.wf(),
        look_at.wf(),
        cam_pos@ != look_at@,
        fx_ok(canv_dist as int),
    ensures
        (r is Some) == (to_camera_space_spec(
            px as int,
            py as int,
            cam_pos@,
            look_at@,
            canv_dist as int,
        ) is Some),
        r matches Some(p) ==> p@ == to_camera_space_spec(
            px as int,
            py as int,
            cam_pos@,
            look_at@,
            canv_dist as int,
        ).unwrap(),
{
    let dirv: Vec3 = look_at.minus(cam_pos);
    proof {
        if dirv@.is_zero() {
            assert(look_at@ == cam_pos@);
        }
    }
    let d: Vec3 = dirv.unit();
    let up: Vec3 = Vec3 { x: 0, y: SCALE, z: 0 };
    let right_raw: Vec3 = d.crossed(up);
    if right_raw.is_zero() {
        return None;
    }
    let right: Vec3 = right_raw.unit();
    let down_raw: Vec3 = d.crossed(right);
    if down_raw.is_zero() {
        return None;
    }
    let down: Vec3 = down_raw.unit();
    let to_canvas: Vec3 = d.scaled(canv_dist);
    let ix: i64 = div_trunc(2 * px, WINDOW_DIM) - SCALE;
    let iy: i64 = div_trunc(2 * py, WINDOW_DIM) - SCALE;
    Some(cam_pos.plus(to_canvas).plus(right.scaled(ix)).plus(down.scaled(iy)))
}

/// The pointer-drag state machine: `Idle` until the primary button is
/// observed down, `Dragging` while it stays down. While dragging, each tick
/// keeps the previous pointer sample so that orbit speed is always a
/// one-tick delta.
#[derive(Clone, Copy, Debug, PartialEq, Eq, Structural)]
pub struct DragTracker {
    /// The primary button was down at the previous tick.
    pub dragging: bool,
    /// Previous pointer sample, fixed-point window coordinates.
    pub prev_x: i64,
    pub prev_y: i64,
}

impl DragTracker {
    /// A tracker that has seen no input: idle, with the pointer at the origin.
    pub fn new() -> (r: DragTracker)
        ensures
            !r.dragging,
            r.prev_x == 0,
            r.prev_y == 0,
    {
        DragTracker { dragging: false, prev_x: 0, prev_y: 0 }
    }

    /// Feed one tick of input: the primary-button state and the pointer
    /// position, if the window reported one. Returns whether this tick
    /// contributes an orbit delta: it does exactly when the previous tick
    /// already held the button and a current pointer sample exists.
    pub fn observe(&mut self, button_down: bool, pointer: Option<(i64, i64)>) -> (emit: bool)
        ensures
            emit == (old(self).dragging && pointer is Some),
            final(self).dragging == button_down,
            pointer is Some ==> final(self).prev_x == pointer.unwrap().0
                && final(self).prev_y == pointer.unwrap().1,
            pointer is None ==> final(self).prev_x == old(self).prev_x
                && final(self).prev_y == old(self).prev_y,
    {
        let emit: bool = self.dragging && pointer.is_some();
        self.dragging = button_down;
        match pointer {
            Some(p) => {
                self.prev_x = p.0;
                self.prev_y = p.1;
            },
            None => {},
        }
        emit
    }
}

} // verus!
