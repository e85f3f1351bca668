//! Interactive orbit-camera controller.
//!
//! The controller keeps the camera on a sphere around a fixed look-at point,
//! described by a yaw angle, a pitch angle, a distance from the origin and a
//! fixed vertical field of view.  All scalar state is held in fixed-point
//! micro-units (millionths of a radian, millionths of a distance unit), so
//! that every update is exact integer arithmetic and the stated bounds are
//! proved, not approximated.

use vstd::prelude::*;

verus! {

/// Angular change in micro-radians per pixel of cursor travel (0.005 rad/px).
pub const SENSITIVITY_MICRO: i64 = 5_000;

/// Pitch is confined to the closed range `[-PITCH_LIMIT_MICRO, PITCH_LIMIT_MICRO]`,
/// which lies strictly inside (-0.995 * pi/2, 0.995 * pi/2) radians, keeping the
/// look-at construction away from the singularity at the poles.
pub const PITCH_LIMIT_MICRO: i64 = 1_562_942;

/// Fixed vertical field of view: 60 degrees, in micro-radians.
pub const FOV_Y_MICRO: i64 = 1_047_198;

/// Starting yaw: 0.6 rad.
pub const INITIAL_YAW_MICRO: i64 = 600_000;

/// Starting pitch: 0.3 rad.
pub const INITIAL_PITCH_MICRO: i64 = 300_000;

/// Starting distance from the origin: 4.0 units.
pub const INITIAL_DISTANCE_MICRO: u64 = 4_000_000;

/// Smallest allowed distance from the origin: 1.0 unit.
pub const MIN_DISTANCE_MICRO: u64 = 1_000_000;

/// Largest allowed distance from the origin: 50.0 units.
pub const MAX_DISTANCE_MICRO: u64 = 50_000_000;

/// Smallest multiplicative zoom factor per scroll event: 0.2.
pub const MIN_ZOOM_FACTOR_MICRO: u64 = 200_000;

/// Largest multiplicative zoom factor per scroll event: 5.0.
pub const MAX_ZOOM_FACTOR_MICRO: u64 = 5_000_000;

/// `x` confined to `[lo, hi]`.
pub open spec fn clamped(x: int, lo: int, hi: int) -> int {
    if x < lo {
        lo
    } else if x > hi {
        hi
    } else {
        x
    }
}

/// `x` confined to the range of `i64`.
pub open spec fn saturated(x: int) -> int {
    clamped(x, i64::MIN as int, i64::MAX as int)
}

/// Angular change, in micro-radians, of a cursor drag from pixel coordinate
/// `from` to pixel coordinate `to` along one axis.
pub open spec fn drag_step_micro(from: int, to: int) -> int {
    saturated(saturated(to - from) * (SENSITIVITY_MICRO as int))
}

/// Multiplicative zoom factor, in micro-units, of one scroll of
/// `scroll_milli` thousandths of a line: `1 - scroll * 0.1`, confined to
/// `[0.2, 5.0]`.
pub open spec fn zoom_factor_micro(scroll_milli: int) -> int {
    clamped(
        1_000_000 - scroll_milli * 100,
        MIN_ZOOM_FACTOR_MICRO as int,
        MAX_ZOOM_FACTOR_MICRO as int,
    )
}

/// Distance after one scroll of `scroll_milli` thousandths of a line:
/// the old distance scaled by the zoom factor, confined to `[1, 50]` units.
pub open spec fn zoomed_distance_micro(distance: int, scroll_milli: int) -> int {
    clamped(
        distance * zoom_factor_micro(scroll_milli) / 1_000_000,
        MIN_DISTANCE_MICRO as int,
        MAX_DISTANCE_MICRO as int,
    )
}

/// A cursor position in physical pixels.
#[derive(Clone, Copy, Debug, PartialEq, Eq, Structural)]
pub struct CursorPos {
    pub x: i64,
    pub y: i64,
}

/// The orbit-camera state machine.  `dragging` tells the two states apart:
/// idle (`false`) and dragging (`true`); `last_cursor` is the last observed
/// cursor sample, present only while dragging.
#[derive(Clone, Copy, Debug)]
pub struct OrbitCamera {
    pub yaw_micro: i64,
    pub pitch_micro: i64,
    pub distance_micro: u64,
    pub fov_y_micro: i64,
    pub dragging: bool,
    pub last_cursor: Option<CursorPos>,
}

impl OrbitCamera {
    /// Well-formedness: pitch away from the poles, distance within its band,
    /// field of view fixed, and no retained cursor sample while idle.
    pub open spec fn wf(self) -> bool {
        &&& -(PITCH_LIMIT_MICRO as int) <= self.pitch_micro as int <= PITCH_LIMIT_MICRO as int
        &&& MIN_DISTANCE_MICRO <= self.distance_micro <= MAX_DISTANCE_MICRO
        &&& self.fov_y_micro == FOV_Y_MICRO
        &&& (!self.dragging ==> self.last_cursor is None)
    }

    pub fn new() -> (cam: OrbitCamera)
        ensures
            cam.wf(),
            cam == initial_camera(),
    {
        OrbitCamera {
            yaw_micro: INITIAL_YAW_MICRO,
            pitch_micro: INITIAL_PITCH_MICRO,
            distance_micro: INITIAL_DISTANCE_MICRO,
            fov_y_micro: FOV_Y_MICRO,
            dragging: false,
            last_cursor: None,
        }
    }

    /// The left mouse button changed: pressed enters the dragging state,
    /// released returns to idle.  Either way the retained cursor sample is
    /// cleared, so the next drag starts from a fresh sample.
    pub fn set_left_button(&mut self, pressed: bool)
        requires
            old(self).wf(),
        ensures
            final(self).wf(),
            button_applied(*old(self), *final(self), pressed),
    {
        self.dragging = pressed;
        self.last_cursor = None;
    }

    /// The cursor moved to pixel position `(x, y)`.  While idle this is
    /// ignored.  While dragging, the first sample is only stored; each later
    /// sample turns the pixel delta from the previous sample into yaw and
    /// pitch changes, with pitch confined to the pole-avoidance band.
    /// Returns whether a redraw should be requested.
    pub fn cursor_moved(&mut self, x: i64, y: i64) -> (redraw: bool)
        requires
            old(self).wf(),
        ensures
            final(self).wf(),
            cursor_applied(*old(self), *final(self), x, y),
            redraw == (old(self).dragging && old(self).last_cursor is Some),
            -PITCH_LIMIT_MICRO <= final(self).pitch_micro <= PITCH_LIMIT_MICRO,
    {
        if !self.dragging {
            return false;
        }
        let redraw: bool = match self.last_cursor {
            Some(prev) => {
                let step_x = sat_mul_i64(sat_sub_i64(x, prev.x), SENSITIVITY_MICRO);
                self.yaw_micro = sat_sub_i64(self.yaw_micro, step_x);
                let step_y = sat_mul_i64(sat_sub_i64(y, prev.y), SENSITIVITY_MICRO);
                let raw_pitch = sat_sub_i64(self.pitch_micro, step_y);
                self.pitch_micro = clamp_i64(raw_pitch, -PITCH_LIMIT_MICRO, PITCH_LIMIT_MICRO);
                true
            },
            None => false,
        };
        self.last_cursor = Some(CursorPos { x, y });
        redraw
    }

    /// A scroll of `scroll_milli_lines` thousandths of a line unit zooms the
    /// camera: the distance is scaled by `1 - scroll * 0.1` (confined to
    /// `[0.2, 5.0]`) and then confined to `[1, 50]` units.  Always requests a
    /// redraw.
    pub fn apply_scroll(&mut self, scroll_milli_lines: i64) -> (redraw: bool)
        requires
            old(self).wf(),
        ensures
            final(self).wf(),
            scroll_applied(*old(self), *final(self), scroll_milli_lines),
            redraw,
            MIN_DISTANCE_MICRO <= final(self).distance_micro <= MAX_DISTANCE_MICRO,
    {
        let factor = zoom_factor(scroll_milli_lines);
        proof {
            assert(self.distance_micro as int * factor as int <= 50_000_000 * 5_000_000)
                by (nonlinear_arith)
                requires
                    self.distance_micro <= MAX_DISTANCE_MICRO,
                    factor <= MAX_ZOOM_FACTOR_MICRO,
            ;
        }
        let scaled: u64 = self.distance_micro * factor / 1_000_000;
        self.distance_micro = if scaled < MIN_DISTANCE_MICRO {
            MIN_DISTANCE_MICRO
        } else if scaled > MAX_DISTANCE_MICRO {
            MAX_DISTANCE_MICRO
        } else {
            scaled
        };
        true
    }
}

/// The controller state at start-up: idle, with the starting yaw, pitch and
/// distance and the fixed field of view.
pub open spec fn initial_camera() -> OrbitCamera {
    OrbitCamera {
        yaw_micro: INITIAL_YAW_MICRO,
        pitch_micro: INITIAL_PITCH_MICRO,
        distance_micro: INITIAL_DISTANCE_MICRO,
        fov_y_micro: FOV_Y_MICRO,
        dragging: false,
        last_cursor: None,
    }
}

/// How a left-button change maps the controller state `pre` to `post`.
pub open spec fn button_applied(pre: OrbitCamera, post: OrbitCamera, pressed: bool) -> bool {
    &&& post.dragging == pressed
    &&& post.last_cursor is None
    &&& post.yaw_micro == pre.yaw_micro
    &&& post.pitch_micro == pre.pitch_micro
    &&& post.distance_micro == pre.distance_micro
    &&& post.fov_y_micro == pre.fov_y_micro
}

/// How a cursor move to `(x, y)` maps the controller state `pre` to `post`:
/// no change while idle; while dragging the new sample is stored, and if a
/// previous sample exists, yaw and pitch take the drag step, pitch confined
/// to the pole-avoidance band.
pub open spec fn cursor_applied(pre: OrbitCamera, post: OrbitCamera, x: i64, y: i64) -> bool {
    if !pre.dragging {
        post == pre
    } else {
        &&& post.dragging
        &&& post.last_cursor == Some(CursorPos { x, y })
        &&& post.distance_micro == pre.distance_micro
        &&& post.fov_y_micro == pre.fov_y_micro
        &&& match pre.last_cursor {
            None => post.yaw_micro == pre.yaw_micro && post.pitch_micro == pre.pitch_micro,
            Some(prev) => {
                &&& post.yaw_micro as int == saturated(
                    pre.yaw_micro as int - drag_step_micro(prev.x as int, x as int),
                )
                &&& post.pitch_micro as int == clamped(
                    saturated(pre.pitch_micro as int - drag_step_micro(prev.y as int, y as int)),
                    -(PITCH_LIMIT_MICRO as int),
                    PITCH_LIMIT_MICRO as int,
                )
            },
        }
    }
}

/// How a scroll of `scroll_milli` thousandths of a line maps the controller
/// state `pre` to `post`: only the distance changes, by the zoom rule.
pub open spec fn scroll_applied(pre: OrbitCamera, post: OrbitCamera, scroll_milli: i64) -> bool {
    &&& post.distance_micro as int == zoomed_distance_micro(
        pre.distance_micro as int,
        scroll_milli as int,
    )
    &&& post.yaw_micro == pre.yaw_micro
    &&& post.pitch_micro == pre.pitch_micro
    &&& post.fov_y_micro == pre.fov_y_micro
    &&& post.dragging == pre.dragging
    &&& post.last_cursor == pre.last_cursor
}

/// `a - b` with the result saturated to the range of `i64`.
fn sat_sub_i64(a: i64, b: i64) -> (r: i64)
    ensures
        r as int == saturated(a as int - b as int),
{
    let wide: i128 = a as i128 - b as i128;
    if wide > i64::MAX as i128 {
        i64::MAX
    } else if wide < i64::MIN as i128 {
        i64::MIN
    } else {
        wide as i64
    }
}

/// `a * b` with the result saturated to the range of `i64`.
fn sat_mul_i64(a: i64, b: i64) -> (r: i64)
    ensures
        r as int == saturated(a as int * b as int),
{
    proof {
        assert(i128::MIN as int <= a as int * b as int <= i128::MAX as int)
            by (nonlinear_arith)
            requires
                i64::MIN as int <= a as int <= i64::MAX as int,
                i64::MIN as int <= b as int <= i64::MAX as int,
        ;
    }
    let wide: i128 = a as i128 * b as i128;
    if wide > i64::MAX as i128 {
        i64::MAX
    } else if wide < i64::MIN as i128 {
        i64::MIN
    } else {
        wide as i64
    }
}

/// `x` confined to `[lo, hi]`.
fn clamp_i64(x: i64, lo: i64, hi: i64) -> (r: i64)
    requires
        lo <= hi,
    ensures
        r as int == clamped(x as int, lo as int, hi as int),
{
    if x < lo {
        lo
    } else if x > hi {
        hi
    } else {
        x
    }
}

/// The zoom factor of one scroll, in micro-units, confined to `[0.2, 5.0]`.
fn zoom_factor(scroll_milli_lines: i64) -> (factor: u64)
    ensures
        factor as int == zoom_factor_micro(scroll_milli_lines as int),
        MIN_ZOOM_FACTOR_MICRO <= factor <= MAX_ZOOM_FACTOR_MICRO,
{
    let raw: i128 = 1_000_000 - (scroll_milli_lines as i128) * 100;
    if raw < MIN_ZOOM_FACTOR_MICRO as i128 {
        MIN_ZOOM_FACTOR_MICRO
    } else if raw > MAX_ZOOM_FACTOR_MICRO as i128 {
        MAX_ZOOM_FACTOR_MICRO
    } else {
        raw as u64
    }
}

} // verus!
