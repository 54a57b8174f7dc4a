//! The mapping between three coordinate spaces: pixels (origin top left, y
//! down), the screen (origin at its middle, y up, one `UNIT` to each edge) and
//! the board (cells, y up).

use crate::camera::{spec_scale_factor, Camera};
use crate::fixed::{
    clamp_i64, floor_div, lemma_div_magnitude, lemma_mul_magnitude, saturate, Point, UNIT,
};
use vstd::prelude::*;

verus! {

/// The factor `height / width` by which horizontal screen distances shrink,
/// so that a square on the board is a square on a viewport of any shape.
#[derive(Clone, Copy, Debug, PartialEq, Eq, Structural)]
pub struct AspectCorrection {
    pub num: u32,
    pub den: u32,
}

impl AspectCorrection {
    /// Neither part of the ratio is zero.
    pub open spec fn wf(self) -> bool {
        self.num > 0 && self.den > 0
    }

    /// The correction `num / den`, unless either is zero.
    pub fn new(num: u32, den: u32) -> (aspect: Option<AspectCorrection>)
        ensures
            aspect.is_some() <==> num > 0 && den > 0,
            aspect.is_some() ==> aspect.unwrap() == (AspectCorrection { num, den }),
    {
        if num == 0 || den == 0 {
            None
        } else {
            Some(AspectCorrection { num, den })
        }
    }

    /// The correction for a viewport of `width` by `height` pixels, unless the
    /// viewport is empty.
    pub fn from_viewport(width: u32, height: u32) -> (aspect: Option<AspectCorrection>)
        ensures
            aspect.is_some() <==> width > 0 && height > 0,
            aspect.is_some() ==> aspect.unwrap() == (AspectCorrection {
                num: height,
                den: width,
            }),
    {
        AspectCorrection::new(height, width)
    }
}

/// Screen x of pixel column `px` on a viewport `width` pixels wide.
pub open spec fn spec_ndc_x(px: int, width: int) -> int {
    2 * px * UNIT / width - UNIT
}

/// Screen y of pixel row `py` on a viewport `height` pixels high.
pub open spec fn spec_ndc_y(py: int, height: int) -> int {
    UNIT - 2 * py * UNIT / height
}

/// Screen x of the board offset `dx` from the camera's centre.
pub open spec fn spec_forward_x(dx: int, scale: int, aspect: AspectCorrection) -> int {
    dx * scale * aspect.num / (UNIT * aspect.den)
}

/// Screen y of the board offset `dy` from the camera's centre.
pub open spec fn spec_forward_y(dy: int, scale: int) -> int {
    dy * scale / (UNIT as int)
}

/// Board offset from the camera's centre of screen x `nx`.
pub open spec fn spec_inverse_x(nx: int, scale: int, aspect: AspectCorrection) -> int {
    nx * UNIT * aspect.den / (scale * aspect.num)
}

/// Board offset from the camera's centre of screen y `ny`.
pub open spec fn spec_inverse_y(ny: int, scale: int) -> int {
    ny * UNIT / scale
}

/// Where the board point `p` is on the screen.
pub open spec fn spec_board_to_screen(p: Point, camera: Camera, aspect: AspectCorrection) -> Point {
    let scale = spec_scale_factor(camera.zoom as int);
    Point {
        x: clamp_i64(spec_forward_x(p.x - camera.center.x, scale, aspect)),
        y: clamp_i64(spec_forward_y(p.y - camera.center.y, scale)),
    }
}

/// Which board point the screen point `n` shows.
pub open spec fn spec_ndc_to_board(n: Point, camera: Camera, aspect: AspectCorrection) -> Point {
    let scale = spec_scale_factor(camera.zoom as int);
    Point {
        x: clamp_i64(spec_inverse_x(n.x as int, scale, aspect) + camera.center.x),
        y: clamp_i64(spec_inverse_y(n.y as int, scale) + camera.center.y),
    }
}

/// The board point `p` is mapped to the screen without saturating.
pub open spec fn screen_representable(p: Point, camera: Camera, aspect: AspectCorrection) -> bool {
    let scale = spec_scale_factor(camera.zoom as int);
    &&& i64::MIN <= spec_forward_x(p.x - camera.center.x, scale, aspect) <= i64::MAX
    &&& i64::MIN <= spec_forward_y(p.y - camera.center.y, scale) <= i64::MAX
}

/// The screen point `n` is mapped to the board without saturating.
pub open spec fn board_representable(n: Point, camera: Camera, aspect: AspectCorrection) -> bool {
    let scale = spec_scale_factor(camera.zoom as int);
    &&& i64::MIN <= spec_inverse_x(n.x as int, scale, aspect) + camera.center.x <= i64::MAX
    &&& i64::MIN <= spec_inverse_y(n.y as int, scale) + camera.center.y <= i64::MAX
}

/// How far a board x may come back from where it started after a trip to the
/// screen and back: the board width of one screen quantum, and one.
pub open spec fn spec_tolerance_x(camera: Camera, aspect: AspectCorrection) -> int {
    UNIT * aspect.den / (spec_scale_factor(camera.zoom as int) * aspect.num) + 1
}

/// The same for a board y.
pub open spec fn spec_tolerance_y(camera: Camera) -> int {
    (UNIT as int) / spec_scale_factor(camera.zoom as int) + 1
}

/// From a pixel to the screen point at its top left corner. `None` on an
/// empty viewport, and only there.
pub fn pixel_to_ndc(px: i32, py: i32, viewport_w: u32, viewport_h: u32) -> (ndc: Option<Point>)
    ensures
        ndc.is_none() <==> viewport_w == 0 || viewport_h == 0,
        ndc.is_some() ==> ndc.unwrap().x == spec_ndc_x(px as int, viewport_w as int)
            && ndc.unwrap().y == spec_ndc_y(py as int, viewport_h as int),
{
    if viewport_w == 0 || viewport_h == 0 {
        return None;
    }
    proof {
        lemma_div_magnitude(2 * px * UNIT, viewport_w as int);
        lemma_div_magnitude(2 * py * UNIT, viewport_h as int);
    }
    let col: i128 = floor_div(2 * (px as i128) * (UNIT as i128), viewport_w as i128);
    let row: i128 = floor_div(2 * (py as i128) * (UNIT as i128), viewport_h as i128);
    Some(Point { x: (col - UNIT as i128) as i64, y: (UNIT as i128 - row) as i64 })
}

/// From the board to the screen: the offset from the camera's centre, times
/// the scale factor, the x also times the aspect correction.
pub fn board_to_screen(p: Point, camera: &Camera, aspect: AspectCorrection) -> (ndc: Point)
    requires
        camera.wf(),
        aspect.wf(),
    ensures
        ndc == spec_board_to_screen(p, *camera, aspect),
{
    let scale: i128 = camera.scale_factor() as i128;
    let dx: i128 = p.x as i128 - camera.center.x as i128;
    let dy: i128 = p.y as i128 - camera.center.y as i128;
    proof {
        lemma_mul_magnitude(dx as int, scale as int, 0x1_0000_0000_0000_0000, 500_000);
        lemma_mul_magnitude(dy as int, scale as int, 0x1_0000_0000_0000_0000, 500_000);
        lemma_mul_magnitude(
            dx * scale,
            aspect.num as int,
            0x1_0000_0000_0000_0000int * 500_000,
            0xFFFF_FFFF,
        );
        lemma_mul_magnitude(UNIT as int, aspect.den as int, 1_000_000, 0xFFFF_FFFF);
        assert(UNIT * aspect.den > 0) by (nonlinear_arith)
            requires
                UNIT > 0,
                aspect.den > 0,
        ;
    }
    let x: i128 = floor_div(dx * scale * (aspect.num as i128), UNIT as i128 * (aspect.den as i128));
    let y: i128 = floor_div(dy * scale, UNIT as i128);
    Point { x: saturate(x), y: saturate(y) }
}

/// From the screen back to the board: the inverse of `board_to_screen`.
pub fn ndc_to_board(ndc: Point, camera: &Camera, aspect: AspectCorrection) -> (p: Point)
    requires
        camera.wf(),
        aspect.wf(),
    ensures
        p == spec_ndc_to_board(ndc, *camera, aspect),
{
    let scale: i128 = camera.scale_factor() as i128;
    proof {
        lemma_mul_magnitude(
            ndc.x * UNIT,
            aspect.den as int,
            0x8000_0000_0000_0000int * 1_000_000,
            0xFFFF_FFFF,
        );
        lemma_mul_magnitude(scale as int, aspect.num as int, 500_000, 0xFFFF_FFFF);
        assert(scale * aspect.num > 0) by (nonlinear_arith)
            requires
                scale > 0,
                aspect.num > 0,
        ;
        lemma_div_magnitude(ndc.x * UNIT * aspect.den, scale * aspect.num);
        lemma_div_magnitude(ndc.y * UNIT, scale as int);
    }
    let dx: i128 = floor_div(
        ndc.x as i128 * UNIT as i128 * (aspect.den as i128),
        scale * (aspect.num as i128),
    );
    let dy: i128 = floor_div(ndc.y as i128 * UNIT as i128, scale);
    Point {
        x: saturate(dx + camera.center.x as i128),
        y: saturate(dy + camera.center.y as i128),
    }
}

/// The value `d` comes back from a multiplication by `k / m` and one by
/// `m / k`, each rounded down, no larger than it was and smaller by at most
/// `m / k + 1`.
pub proof fn lemma_scale_round_trip(d: int, k: int, m: int)
    requires
        k > 0,
        m > 0,
    ensures
        (d * k / m) * m / k <= d,
        d - (d * k / m) * m / k <= m / k + 1,
{
    let n = d * k / m;
    let back = n * m / k;
    vstd::arithmetic::div_mod::lemma_fundamental_div_mod(d * k, m);
    vstd::arithmetic::div_mod::lemma_fundamental_div_mod(n * m, k);
    vstd::arithmetic::div_mod::lemma_fundamental_div_mod(m, k);
    let r1 = (d * k) % m;
    let r2 = (n * m) % k;
    assert(0 <= r1 < m);
    assert(0 <= r2 < k);
    assert(d * k == m * n + r1);
    assert(n * m == k * back + r2);
    assert(back <= d) by (nonlinear_arith)
        requires
            d * k == m * n + r1,
            n * m == k * back + r2,
            0 <= r1,
            0 <= r2,
            k > 0,
    ;
    let q = m / k;
    let r3 = m % k;
    assert(m == k * q + r3);
    assert(0 <= r3 < k);
    assert(d - back <= q + 1) by (nonlinear_arith)
        requires
            d * k == m * n + r1,
            n * m == k * back + r2,
            m == k * q + r3,
            0 <= r1 < m,
            0 <= r2 < k,
            0 <= r3 < k,
            k > 0,
    ;
}

/// A board point that is mapped to the screen and back returns to where it
/// was, within the tolerance: never beyond its origin, and short of it by no
/// more than the board size of one screen quantum, and one.
pub proof fn lemma_board_round_trip(p: Point, camera: Camera, aspect: AspectCorrection)
    requires
        camera.wf(),
        aspect.wf(),
        screen_representable(p, camera, aspect),
    ensures
        ({
            let back = spec_ndc_to_board(spec_board_to_screen(p, camera, aspect), camera, aspect);
            &&& p.x - spec_tolerance_x(camera, aspect) <= back.x <= p.x
            &&& p.y - spec_tolerance_y(camera) <= back.y <= p.y
        }),
{
    let scale = spec_scale_factor(camera.zoom as int);
    crate::camera::lemma_scale_factor_bounds(camera.zoom as int);
    let dx = p.x - camera.center.x;
    let dy = p.y - camera.center.y;
    let k = scale * aspect.num;
    let m = UNIT * aspect.den;
    assert(k > 0) by (nonlinear_arith)
        requires
            k == scale * aspect.num,
            scale > 0,
            aspect.num > 0,
    ;
    lemma_scale_round_trip(dx, k, m);
    lemma_scale_round_trip(dy, scale, UNIT as int);
    assert(dx * scale * aspect.num == dx * k) by (nonlinear_arith)
        requires
            k == scale * aspect.num,
    ;
    let nx = spec_forward_x(dx, scale, aspect);
    assert(nx == dx * k / m);
    assert(nx * UNIT * aspect.den == nx * m) by (nonlinear_arith)
        requires
            m == UNIT * aspect.den,
    ;
    assert(spec_inverse_x(nx, scale, aspect) == nx * m / k);
}

/// A screen point that is mapped to the board and back returns to where it
/// was, within the tolerance: never beyond its origin, and short of it by no
/// more than the screen size of one board quantum, and one. So what the
/// pointer is found to be over is what is drawn under it.
pub proof fn lemma_screen_round_trip(n: Point, camera: Camera, aspect: AspectCorrection)
    requires
        camera.wf(),
        aspect.wf(),
        board_representable(n, camera, aspect),
    ensures
        ({
            let scale = spec_scale_factor(camera.zoom as int);
            let back = spec_board_to_screen(spec_ndc_to_board(n, camera, aspect), camera, aspect);
            &&& n.x - scale * aspect.num / (UNIT * aspect.den) - 1 <= back.x <= n.x
            &&& n.y - scale / (UNIT as int) - 1 <= back.y <= n.y
        }),
{
    let scale = spec_scale_factor(camera.zoom as int);
    crate::camera::lemma_scale_factor_bounds(camera.zoom as int);
    let k = scale * aspect.num;
    let m = UNIT * aspect.den;
    assert(k > 0 && m > 0) by (nonlinear_arith)
        requires
            k == scale * aspect.num,
            m == UNIT * aspect.den,
            scale > 0,
            aspect.num > 0,
            aspect.den > 0,
            UNIT > 0,
    ;
    lemma_scale_round_trip(n.x as int, m, k);
    lemma_scale_round_trip(n.y as int, UNIT as int, scale);
    assert(n.x * UNIT * aspect.den == n.x * m) by (nonlinear_arith)
        requires
            m == UNIT * aspect.den,
    ;
    let dx = spec_inverse_x(n.x as int, scale, aspect);
    assert(dx == n.x * m / k);
    assert(dx * scale * aspect.num == dx * k) by (nonlinear_arith)
        requires
            k == scale * aspect.num,
    ;
    assert(spec_forward_x(dx, scale, aspect) == dx * k / m);
}

/// One cell is at least one screen quantum wide: no two columns of cells
/// fall onto the same screen x.
pub open spec fn cells_resolved(camera: Camera, aspect: AspectCorrection) -> bool {
    spec_scale_factor(camera.zoom as int) * aspect.num >= aspect.den
}

/// A board offset that is a cell or more further up is further up on the
/// screen, at every zoom level.
pub proof fn lemma_forward_y_strict(dy_a: int, dy_b: int, camera: Camera)
    requires
        camera.wf(),
        dy_b >= dy_a + UNIT,
    ensures
        spec_forward_y(dy_a, spec_scale_factor(camera.zoom as int)) < spec_forward_y(
            dy_b,
            spec_scale_factor(camera.zoom as int),
        ),
{
    let scale = spec_scale_factor(camera.zoom as int);
    crate::camera::lemma_scale_factor_bounds(camera.zoom as int);
    assert(dy_b * scale >= dy_a * scale + UNIT) by (nonlinear_arith)
        requires
            dy_b >= dy_a + UNIT,
            scale >= 1,
            UNIT > 0,
    ;
    crate::fixed::lemma_div_strict(dy_a * scale, dy_b * scale, UNIT as int);
}

/// A board offset that is a cell or more further right is further right on
/// the screen, where cells are resolved.
pub proof fn lemma_forward_x_strict(
    dx_a: int,
    dx_b: int,
    camera: Camera,
    aspect: AspectCorrection,
)
    requires
        camera.wf(),
        aspect.wf(),
        cells_resolved(camera, aspect),
        dx_b >= dx_a + UNIT,
    ensures
        spec_forward_x(dx_a, spec_scale_factor(camera.zoom as int), aspect) < spec_forward_x(
            dx_b,
            spec_scale_factor(camera.zoom as int),
            aspect,
        ),
{
    let scale = spec_scale_factor(camera.zoom as int);
    crate::camera::lemma_scale_factor_bounds(camera.zoom as int);
    let k = scale * aspect.num;
    let m = UNIT * aspect.den;
    assert(dx_b * k >= dx_a * k + m) by (nonlinear_arith)
        requires
            dx_b >= dx_a + UNIT,
            k >= aspect.den,
            m == UNIT * aspect.den,
            UNIT > 0,
            aspect.den > 0,
    ;
    assert(m > 0) by (nonlinear_arith)
        requires
            m == UNIT * aspect.den,
            UNIT > 0,
            aspect.den > 0,
    ;
    assert(dx_a * scale * aspect.num == dx_a * k) by (nonlinear_arith)
        requires
            k == scale * aspect.num,
    ;
    assert(dx_b * scale * aspect.num == dx_b * k) by (nonlinear_arith)
        requires
            k == scale * aspect.num,
    ;
    crate::fixed::lemma_div_strict(dx_a * k, dx_b * k, m);
}

/// The pixel at the middle of a viewport of even width and height shows the
/// camera's centre, at every zoom level.
pub proof fn lemma_screen_center_is_camera_center(
    viewport_w: u32,
    viewport_h: u32,
    camera: Camera,
    aspect: AspectCorrection,
)
    requires
        camera.wf(),
        aspect.wf(),
        viewport_w > 0,
        viewport_h > 0,
        viewport_w % 2 == 0,
        viewport_h % 2 == 0,
    ensures
        spec_ndc_to_board(
            Point {
                x: spec_ndc_x(viewport_w as int / 2, viewport_w as int) as i64,
                y: spec_ndc_y(viewport_h as int / 2, viewport_h as int) as i64,
            },
            camera,
            aspect,
        ) == camera.center,
{
    let w = viewport_w as int;
    let h = viewport_h as int;
    assert(2 * (w / 2) == w);
    assert(2 * (h / 2) == h);
    assert(2 * (w / 2) * UNIT == w * 1_000_000);
    assert(2 * (h / 2) * UNIT == h * 1_000_000);
    vstd::arithmetic::div_mod::lemma_div_multiples_vanish(1_000_000, w);
    vstd::arithmetic::div_mod::lemma_div_multiples_vanish(1_000_000, h);
    assert(w * 1_000_000 == 1_000_000 * w);
    assert(h * 1_000_000 == 1_000_000 * h);
    assert(spec_ndc_x(w / 2, w) == 0);
    assert(spec_ndc_y(h / 2, h) == 0);
    let scale = spec_scale_factor(camera.zoom as int);
    crate::camera::lemma_scale_factor_bounds(camera.zoom as int);
    assert(scale * aspect.num > 0) by (nonlinear_arith)
        requires
            scale > 0,
            aspect.num > 0,
    ;
    assert(0 * UNIT * aspect.den == 0) by (nonlinear_arith);
    assert(0int / (scale * aspect.num) == 0) by (nonlinear_arith)
        requires
            scale * aspect.num > 0,
    ;
    assert(0int / scale == 0) by (nonlinear_arith)
        requires
            scale > 0,
    ;
}

} // verus!
