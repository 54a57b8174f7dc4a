//! The camera: a pan centre on the board and a zoom level.

use crate::fixed::{clamp, clamp_i64, floor_div, saturate, Point, UNIT};
use vstd::prelude::*;

verus! {

/// On-screen scale at zoom level zero.
pub const ZOOM_MIN: i64 = 20_000;

/// On-screen scale at zoom level one.
pub const ZOOM_MAX: i64 = 500_000;

/// Change of the zoom level for one line of scrolling.
pub const ZOOM_STEP: i64 = 50_000;

/// Zoom level of a fresh camera.
pub const ZOOM_DEFAULT: i64 = 300_000;

/// Speed of the camera, in board cells per second.
pub const CAMERA_SPEED: i64 = 4;

/// Nanoseconds in a second.
pub const NS_PER_SECOND: i64 = 1_000_000_000;

/// The share of a step that each axis gets when the camera moves along a
/// diagonal: just under the square root of one half.
pub const DIAGONAL: i64 = 707_106;

/// Where the held keys point, per axis: `-1`, `0` or `1`.
#[derive(Clone, Copy, Debug, PartialEq, Eq, Structural)]
pub struct Direction {
    pub x: i8,
    pub y: i8,
}

impl Direction {
    /// Each component is `-1`, `0` or `1`.
    pub open spec fn wf(self) -> bool {
        -1 <= self.x <= 1 && -1 <= self.y <= 1
    }

}

/// The zoom level after one scroll of `scroll_delta` lines (fixed-point).
pub open spec fn spec_zoom_step(zoom: int, scroll_delta: int) -> int {
    clamp(zoom + scroll_delta * ZOOM_STEP / (UNIT as int), 0, UNIT as int)
}

/// The zoom level after the scrolls of `deltas`, applied in order.
pub open spec fn spec_zoom_steps(zoom: int, deltas: Seq<i64>) -> int
    decreases deltas.len(),
{
    if deltas.len() == 0 {
        zoom
    } else {
        spec_zoom_step(spec_zoom_steps(zoom, deltas.drop_last()), deltas.last() as int)
    }
}

/// The scale factor at a zoom level: linear between the two bounds.
pub open spec fn spec_scale_factor(zoom: int) -> int {
    ZOOM_MIN + (ZOOM_MAX - ZOOM_MIN) * zoom / (UNIT as int)
}

/// The distance the camera covers in `delta_ns` nanoseconds.
pub open spec fn spec_step(delta_ns: int) -> int {
    CAMERA_SPEED * UNIT * delta_ns / (NS_PER_SECOND as int)
}

/// The distance covered along each axis: the whole step along one axis, the
/// diagonal share of it along two.
pub open spec fn spec_stride(direction: Direction, delta_ns: int) -> int {
    if direction.x != 0 && direction.y != 0 {
        spec_step(delta_ns) * DIAGONAL / (UNIT as int)
    } else {
        spec_step(delta_ns)
    }
}

/// `stride` with the sign of `component`.
pub open spec fn spec_signed(component: int, stride: int) -> int {
    if component > 0 {
        stride
    } else if component < 0 {
        -stride
    } else {
        0
    }
}

/// The centre after moving for `delta_ns` nanoseconds in `direction`.
pub open spec fn spec_advance(center: Point, direction: Direction, delta_ns: int) -> Point {
    Point {
        x: clamp_i64(center.x + spec_signed(direction.x as int, spec_stride(direction, delta_ns))),
        y: clamp_i64(center.y + spec_signed(direction.y as int, spec_stride(direction, delta_ns))),
    }
}

/// What part of the board the screen shows, and how large.
#[derive(Clone, Copy, Debug, PartialEq, Eq, Structural)]
pub struct Camera {
    /// The board point shown at the middle of the screen.
    pub center: Point,
    /// Zoom level, from `0` to `UNIT`.
    pub zoom: i64,
}

impl Camera {
    /// The zoom level is in range.
    pub open spec fn wf(self) -> bool {
        0 <= self.zoom <= UNIT
    }

    /// A camera at `center`; `zoom` is brought into range.
    pub fn new(center: Point, zoom: i64) -> (camera: Camera)
        ensures
            camera.center == center,
            camera.zoom == clamp(zoom as int, 0, UNIT as int),
            camera.wf(),
    {
        let zoom: i64 = if zoom < 0 {
            0
        } else if zoom > UNIT {
            UNIT
        } else {
            zoom
        };
        Camera { center, zoom }
    }

    /// Applies one scroll of `scroll_delta` lines (fixed-point) to the zoom
    /// level, which stays in range.
    pub fn zoom_step(&mut self, scroll_delta: i64)
        requires
            old(self).wf(),
        ensures
            final(self).zoom == spec_zoom_step(old(self).zoom as int, scroll_delta as int),
            final(self).center == old(self).center,
            final(self).wf(),
    {
        proof {
            crate::fixed::lemma_mul_magnitude(
                scroll_delta as int,
                ZOOM_STEP as int,
                0x8000_0000_0000_0000,
                50_000,
            );
            crate::fixed::lemma_div_magnitude(scroll_delta * ZOOM_STEP, UNIT as int);
        }
        let change: i128 = floor_div(scroll_delta as i128 * ZOOM_STEP as i128, UNIT as i128);
        let raw: i128 = self.zoom as i128 + change;
        self.zoom = if raw < 0 {
            0
        } else if raw > UNIT as i128 {
            UNIT
        } else {
            raw as i64
        };
    }

    /// The on-screen scale of one board cell.
    pub fn scale_factor(&self) -> (scale: i64)
        requires
            self.wf(),
        ensures
            scale == spec_scale_factor(self.zoom as int),
            ZOOM_MIN <= scale <= ZOOM_MAX,
    {
        proof {
            lemma_scale_factor_bounds(self.zoom as int);
        }
        let grown: i64 = (ZOOM_MAX - ZOOM_MIN) * self.zoom / UNIT;
        ZOOM_MIN + grown
    }

    /// Moves the centre for `delta_ns` nanoseconds in `direction`, at
    /// `CAMERA_SPEED` cells per second whichever way it points. The zero
    /// direction moves nothing.
    pub fn advance(&mut self, direction: Direction, delta_ns: u64)
        requires
            old(self).wf(),
            direction.wf(),
        ensures
            final(self).center == spec_advance(old(self).center, direction, delta_ns as int),
            final(self).zoom == old(self).zoom,
            final(self).wf(),
    {
        if direction.x == 0 && direction.y == 0 {
            return ;
        }
        proof {
            assert(CAMERA_SPEED * UNIT == 4_000_000);
            crate::fixed::lemma_mul_magnitude(
                CAMERA_SPEED * UNIT,
                delta_ns as int,
                4_000_000,
                0xFFFF_FFFF_FFFF_FFFF,
            );
            assert(CAMERA_SPEED * UNIT * delta_ns >= 0) by (nonlinear_arith)
                requires
                    CAMERA_SPEED * UNIT == 4_000_000,
                    delta_ns >= 0,
            ;
        }
        let step: i128 = floor_div(
            CAMERA_SPEED as i128 * UNIT as i128 * delta_ns as i128,
            NS_PER_SECOND as i128,
        );
        proof {
            crate::fixed::lemma_div_magnitude(
                CAMERA_SPEED * UNIT * delta_ns,
                NS_PER_SECOND as int,
            );
        }
        let stride: i128 = if direction.x != 0 && direction.y != 0 {
            proof {
                crate::fixed::lemma_div_magnitude(step * DIAGONAL, UNIT as int);
            }
            floor_div(step * DIAGONAL as i128, UNIT as i128)
        } else {
            step
        };
        self.center = Point {
            x: saturate(self.center.x as i128 + signed(direction.x, stride)),
            y: saturate(self.center.y as i128 + signed(direction.y, stride)),
        };
    }
}

/// `stride` with the sign of `component`.
fn signed(component: i8, stride: i128) -> (r: i128)
    requires
        0 <= stride <= 0x4000_0000_0000_0000_0000_0000,
    ensures
        r == spec_signed(component as int, stride as int),
{
    if component > 0 {
        stride
    } else if component < 0 {
        -stride
    } else {
        0
    }
}

/// The scale factor lies between its two bounds at every zoom level in range.
pub proof fn lemma_scale_factor_bounds(zoom: int)
    requires
        0 <= zoom <= UNIT,
    ensures
        ZOOM_MIN <= spec_scale_factor(zoom) <= ZOOM_MAX,
        spec_scale_factor(0) == ZOOM_MIN,
        spec_scale_factor(UNIT as int) == ZOOM_MAX,
{
}

/// The scale factor never decreases as the zoom level grows.
pub proof fn lemma_scale_factor_monotonic(zoom_a: int, zoom_b: int)
    requires
        zoom_a <= zoom_b,
    ensures
        spec_scale_factor(zoom_a) <= spec_scale_factor(zoom_b),
{
    assert((ZOOM_MAX - ZOOM_MIN) * zoom_a <= (ZOOM_MAX - ZOOM_MIN) * zoom_b) by (nonlinear_arith)
        requires
            zoom_a <= zoom_b,
            ZOOM_MAX - ZOOM_MIN >= 0,
    ;
    crate::fixed::lemma_div_monotonic(
        (ZOOM_MAX - ZOOM_MIN) * zoom_a,
        (ZOOM_MAX - ZOOM_MIN) * zoom_b,
        UNIT as int,
    );
}

/// One scroll leaves the zoom level in range, whatever it was and however far
/// the scroll goes; a scroll of nothing leaves a level in range as it is.
pub proof fn lemma_zoom_step_bounded(zoom: int, scroll_delta: int)
    ensures
        0 <= spec_zoom_step(zoom, scroll_delta) <= UNIT,
        0 <= zoom <= UNIT ==> spec_zoom_step(zoom, 0) == zoom,
{
}

/// After any sequence of scrolls the zoom level of a camera is in range.
pub proof fn lemma_zoom_steps_bounded(zoom: int, deltas: Seq<i64>)
    requires
        0 <= zoom <= UNIT,
    ensures
        0 <= spec_zoom_steps(zoom, deltas) <= UNIT,
    decreases deltas.len(),
{
    if deltas.len() > 0 {
        lemma_zoom_steps_bounded(zoom, deltas.drop_last());
    }
}

/// Moving in the zero direction leaves the centre where it is, for any
/// length of time.
pub proof fn lemma_advance_zero(center: Point, delta_ns: int)
    ensures
        spec_advance(center, Direction { x: 0, y: 0 }, delta_ns) == center,
{
}

/// Moving along the positive x axis for `delta_ns` nanoseconds adds exactly
/// the speed times the time to `center.x`, and leaves `center.y`, as long as
/// the sum is representable.
pub proof fn lemma_advance_along_x(center: Point, delta_ns: int)
    requires
        center.x + CAMERA_SPEED * UNIT * delta_ns / (NS_PER_SECOND as int) <= i64::MAX,
        delta_ns >= 0,
    ensures
        spec_advance(center, Direction { x: 1, y: 0 }, delta_ns).x == center.x + CAMERA_SPEED
            * UNIT * delta_ns / (NS_PER_SECOND as int),
        spec_advance(center, Direction { x: 1, y: 0 }, delta_ns).y == center.y,
{
    crate::fixed::lemma_div_magnitude(CAMERA_SPEED * UNIT * delta_ns, NS_PER_SECOND as int);
}

/// Along a diagonal the camera is never faster than along an axis: the
/// squared length of the displacement is at most the square of the step.
pub proof fn lemma_diagonal_not_faster(delta_ns: int)
    requires
        delta_ns >= 0,
    ensures
        ({
            let d = spec_stride(Direction { x: 1, y: 1 }, delta_ns);
            0 <= d && d * d + d * d <= spec_step(delta_ns) * spec_step(delta_ns)
        }),
{
    let step = spec_step(delta_ns);
    let d = step * DIAGONAL / (UNIT as int);
    crate::fixed::lemma_div_magnitude(CAMERA_SPEED * UNIT * delta_ns, NS_PER_SECOND as int);
    crate::fixed::lemma_div_magnitude(step * DIAGONAL, UNIT as int);
    vstd::arithmetic::div_mod::lemma_fundamental_div_mod(step * DIAGONAL, UNIT as int);
    assert(0 <= d * 1_000_000 <= step * 707_106);
    assert(d * d + d * d <= step * step) by (nonlinear_arith)
        requires
            0 <= d * 1_000_000 <= step * 707_106,
            0 <= d,
            0 <= step,
    ;
}

} // verus!
