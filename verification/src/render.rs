//! The renderer: the squares to draw for one frame, in screen coordinates.

use crate::camera::{spec_scale_factor, Camera};
use crate::fixed::{floor_div, lemma_div_magnitude, lemma_mul_magnitude, Point, UNIT};
use crate::grid::Grid;
use crate::mapper::{
    board_to_screen, cells_resolved, lemma_forward_x_strict, lemma_forward_y_strict,
    screen_representable, spec_board_to_screen, AspectCorrection,
};
use vstd::prelude::*;

verus! {

/// Half the edge of a cell's square, in cells: short of a half, so that
/// neighbours leave a gap.
pub const CELL_RADIUS: i64 = 470_000;

/// Half the edge of the marker at the camera's centre, in cells.
pub const MARKER_RADIUS: i64 = 47_000;

/// Shade of an occupied cell.
pub const SHADE_PLAIN: i64 = 1_000_000;

/// Shade of the occupied cell under the pointer.
pub const SHADE_HOVER: i64 = 700_000;

/// Shade of the marker at the camera's centre.
pub const SHADE_MARKER: i64 = 500_000;

/// A filled square to draw: its centre on the screen, half its edge in
/// vertical screen units, and its shade from `0` (black) to `UNIT` (white).
#[derive(Clone, Copy, Debug, PartialEq, Eq, Structural)]
pub struct Primitive {
    pub center: Point,
    pub half_extent: i64,
    pub shade: i64,
}

/// The board point at the middle of the cell in column `x` and row `y`.
pub open spec fn spec_cell_center(x: int, y: int) -> Point {
    Point { x: (x * UNIT) as i64, y: (y * UNIT) as i64 }
}

/// Whether the pointer, at the board point `pointer`, is over the square of
/// the cell in column `x` and row `y`.
pub open spec fn spec_hovered(x: int, y: int, pointer: Option<Point>) -> bool {
    match pointer {
        None => false,
        Some(at) => {
            &&& -CELL_RADIUS <= x * UNIT - at.x <= CELL_RADIUS
            &&& -CELL_RADIUS <= y * UNIT - at.y <= CELL_RADIUS
        },
    }
}

/// A board length of `radius` on the screen.
pub open spec fn spec_half_extent(radius: int, camera: Camera) -> int {
    radius * spec_scale_factor(camera.zoom as int) / (UNIT as int)
}

/// The square of the cell in column `x` and row `y`.
pub open spec fn spec_cell_primitive(
    x: int,
    y: int,
    camera: Camera,
    aspect: AspectCorrection,
    pointer: Option<Point>,
) -> Primitive {
    Primitive {
        center: spec_board_to_screen(spec_cell_center(x, y), camera, aspect),
        half_extent: spec_half_extent(CELL_RADIUS as int, camera) as i64,
        shade: if spec_hovered(x, y, pointer) {
            SHADE_HOVER
        } else {
            SHADE_PLAIN
        },
    }
}

/// The marker at the camera's centre.
pub open spec fn spec_marker(camera: Camera, aspect: AspectCorrection) -> Primitive {
    Primitive {
        center: spec_board_to_screen(camera.center, camera, aspect),
        half_extent: spec_half_extent(MARKER_RADIUS as int, camera) as i64,
        shade: SHADE_MARKER,
    }
}

/// The squares of the occupied cells among the first `upto`, counted column
/// by column and upwards within a column.
pub open spec fn spec_cells(
    grid: Grid,
    camera: Camera,
    aspect: AspectCorrection,
    pointer: Option<Point>,
    upto: nat,
) -> Seq<Primitive>
    decreases upto,
{
    if upto == 0 {
        Seq::empty()
    } else {
        let k = upto - 1;
        let x = k / (grid.height as int);
        let y = k % (grid.height as int);
        let before = spec_cells(grid, camera, aspect, pointer, k as nat);
        if grid.spec_cell_at(x, y) {
            before.push(spec_cell_primitive(x, y, camera, aspect, pointer))
        } else {
            before
        }
    }
}

/// How many of the first `upto` cells are occupied, in the same order.
pub open spec fn spec_occupied(grid: Grid, upto: nat) -> nat
    decreases upto,
{
    if upto == 0 {
        0
    } else {
        let k = upto - 1;
        let here: nat = if grid.spec_cell_at(k / (grid.height as int), k % (grid.height as int)) {
            1
        } else {
            0
        };
        spec_occupied(grid, k as nat) + here
    }
}

/// The squares of one frame: those of the occupied cells, then the marker.
pub open spec fn spec_frame(
    grid: Grid,
    camera: Camera,
    aspect: AspectCorrection,
    pointer: Option<Point>,
) -> Seq<Primitive> {
    spec_cells(grid, camera, aspect, pointer, (grid.width * grid.height) as nat).push(
        spec_marker(camera, aspect),
    )
}

/// There is one square for each occupied cell.
pub proof fn lemma_cells_len(
    grid: Grid,
    camera: Camera,
    aspect: AspectCorrection,
    pointer: Option<Point>,
    upto: nat,
)
    ensures
        spec_cells(grid, camera, aspect, pointer, upto).len() == spec_occupied(grid, upto),
    decreases upto,
{
    if upto > 0 {
        lemma_cells_len(grid, camera, aspect, pointer, (upto - 1) as nat);
    }
}

/// A frame holds one square for each occupied cell, and the marker.
pub proof fn lemma_frame_len(
    grid: Grid,
    camera: Camera,
    aspect: AspectCorrection,
    pointer: Option<Point>,
)
    ensures
        spec_frame(grid, camera, aspect, pointer).len() == spec_occupied(
            grid,
            (grid.width * grid.height) as nat,
        ) + 1,
{
    lemma_cells_len(grid, camera, aspect, pointer, (grid.width * grid.height) as nat);
}

/// The squares of two different cells have different centres on the screen,
/// where cells are resolved and neither centre is beyond the range.
pub proof fn lemma_centers_distinct(
    x_a: int,
    y_a: int,
    x_b: int,
    y_b: int,
    camera: Camera,
    aspect: AspectCorrection,
)
    requires
        camera.wf(),
        aspect.wf(),
        cells_resolved(camera, aspect),
        0 <= x_a <= u32::MAX,
        0 <= y_a <= u32::MAX,
        0 <= x_b <= u32::MAX,
        0 <= y_b <= u32::MAX,
        x_a != x_b || y_a != y_b,
        screen_representable(spec_cell_center(x_a, y_a), camera, aspect),
        screen_representable(spec_cell_center(x_b, y_b), camera, aspect),
    ensures
        spec_board_to_screen(spec_cell_center(x_a, y_a), camera, aspect) != spec_board_to_screen(
            spec_cell_center(x_b, y_b),
            camera,
            aspect,
        ),
{
    let a = spec_cell_center(x_a, y_a);
    let b = spec_cell_center(x_b, y_b);
    assert(a.x == x_a * 1_000_000 && a.y == y_a * 1_000_000);
    assert(b.x == x_b * 1_000_000 && b.y == y_b * 1_000_000);
    let cx = camera.center.x;
    let cy = camera.center.y;
    if x_a < x_b {
        lemma_forward_x_strict(a.x - cx, b.x - cx, camera, aspect);
    } else if x_b < x_a {
        lemma_forward_x_strict(b.x - cx, a.x - cx, camera, aspect);
    } else if y_a < y_b {
        lemma_forward_y_strict(a.y - cy, b.y - cy, camera);
    } else {
        lemma_forward_y_strict(b.y - cy, a.y - cy, camera);
    }
}

/// The squares of two cells never overlap, so the pointer is over one cell
/// at most.
pub proof fn lemma_hover_unique(x_a: int, y_a: int, x_b: int, y_b: int, pointer: Option<Point>)
    requires
        spec_hovered(x_a, y_a, pointer),
        spec_hovered(x_b, y_b, pointer),
    ensures
        x_a == x_b,
        y_a == y_b,
{
}

/// The board coordinate of the middle of column or row `index`.
fn cell_coordinate(index: u32) -> (c: i64)
    ensures
        c == index * UNIT,
{
    proof {
        lemma_mul_magnitude(index as int, UNIT as int, 0xFFFF_FFFF, 1_000_000);
    }
    index as i64 * UNIT
}

/// A board length of `radius` on the screen.
fn half_extent(radius: i64, camera: &Camera) -> (half: i64)
    requires
        0 <= radius <= UNIT,
        camera.wf(),
    ensures
        half == spec_half_extent(radius as int, *camera),
{
    let scale: i64 = camera.scale_factor();
    proof {
        lemma_mul_magnitude(radius as int, scale as int, 1_000_000, 500_000);
        assert(radius * scale >= 0) by (nonlinear_arith)
            requires
                radius >= 0,
                scale >= 0,
        ;
        lemma_div_magnitude(radius * scale, UNIT as int);
    }
    floor_div(radius as i128 * scale as i128, UNIT as i128) as i64
}

/// Whether the pointer is over the square of the cell in column `x` and row
/// `y`.
fn hovered(x: u32, y: u32, pointer: Option<Point>) -> (over: bool)
    ensures
        over == spec_hovered(x as int, y as int, pointer),
{
    match pointer {
        None => false,
        Some(at) => {
            let dx: i128 = cell_coordinate(x) as i128 - at.x as i128;
            let dy: i128 = cell_coordinate(y) as i128 - at.y as i128;
            let radius: i128 = CELL_RADIUS as i128;
            -radius <= dx && dx <= radius && -radius <= dy && dy <= radius
        },
    }
}

/// The squares of one frame: for each occupied cell of the grid its square,
/// dimmed where the pointer (a board point, if there is one) is over it;
/// then the marker at the camera's centre.
pub fn frame_primitives(
    grid: &Grid,
    camera: &Camera,
    aspect: AspectCorrection,
    pointer: Option<Point>,
) -> (out: Vec<Primitive>)
    requires
        grid.wf(),
        camera.wf(),
        aspect.wf(),
    ensures
        out@ == spec_frame(*grid, *camera, aspect, pointer),
{
    let mut out: Vec<Primitive> = Vec::new();
    let cell_half: i64 = half_extent(CELL_RADIUS, camera);
    let width: u32 = grid.width();
    let height: u32 = grid.height();
    let mut x: u32 = 0;
    while x < width
        invariant
            grid.wf(),
            camera.wf(),
            aspect.wf(),
            width == grid.width,
            height == grid.height,
            x <= width,
            cell_half == spec_half_extent(CELL_RADIUS as int, *camera),
            out@ == spec_cells(*grid, *camera, aspect, pointer, (x * height) as nat),
        decreases width - x,
    {
        let mut y: u32 = 0;
        while y < height
            invariant
                grid.wf(),
                camera.wf(),
                aspect.wf(),
                width == grid.width,
                height == grid.height,
                x < width,
                y <= height,
                cell_half == spec_half_extent(CELL_RADIUS as int, *camera),
                out@ == spec_cells(*grid, *camera, aspect, pointer, (x * height + y) as nat),
            decreases height - y,
        {
            proof {
                lemma_column_index(x as int, y as int, height as int);
            }
            if grid.cell_at(x, y) {
                let center: Point = board_to_screen(
                    Point { x: cell_coordinate(x), y: cell_coordinate(y) },
                    camera,
                    aspect,
                );
                let shade: i64 = if hovered(x, y, pointer) {
                    SHADE_HOVER
                } else {
                    SHADE_PLAIN
                };
                out.push(Primitive { center, half_extent: cell_half, shade });
            }
            y = y + 1;
        }
        proof {
            assert(x * height + height == (x + 1) * height) by (nonlinear_arith);
        }
        x = x + 1;
    }
    let marker: Primitive = Primitive {
        center: board_to_screen(camera.center, camera, aspect),
        half_extent: half_extent(MARKER_RADIUS, camera),
        shade: SHADE_MARKER,
    };
    out.push(marker);
    out
}

/// The cell in column `x` and row `y` is the one counted at `x * height + y`.
pub proof fn lemma_column_index(x: int, y: int, height: int)
    requires
        0 <= x,
        0 <= y < height,
    ensures
        0 <= x * height,
        (x * height + y) / height == x,
        (x * height + y) % height == y,
{
    assert(0 <= x * height) by (nonlinear_arith)
        requires
            0 <= x,
            0 < height,
    ;
    vstd::arithmetic::div_mod::lemma_fundamental_div_mod_converse(x * height + y, height, x, y);
}

} // verus!
