use chessrs::camera::{
    Camera, Direction, CAMERA_SPEED, ZOOM_DEFAULT, ZOOM_MAX, ZOOM_MIN, ZOOM_STEP,
};
use chessrs::fixed::{floor_div, saturate, Point, UNIT};

fn origin() -> Point {
    Point { x: 0, y: 0 }
}

#[test]
fn new_camera_keeps_center_and_clamps_zoom() {
    let center = Point { x: 4 * UNIT, y: 2 * UNIT };
    assert_eq!(Camera::new(center, ZOOM_DEFAULT), Camera { center, zoom: 300_000 });
    assert_eq!(Camera::new(center, -5).zoom, 0);
    assert_eq!(Camera::new(center, UNIT + 1).zoom, UNIT);
    assert_eq!(Camera::new(center, i64::MIN).zoom, 0);
    assert_eq!(Camera::new(center, i64::MAX).zoom, UNIT);
}

#[test]
fn zoom_step_adds_a_twentieth_per_line() {
    let mut camera = Camera::new(origin(), 300_000);
    camera.zoom_step(UNIT);
    assert_eq!(camera.zoom, 300_000 + ZOOM_STEP);
    camera.zoom_step(-UNIT / 2);
    assert_eq!(camera.zoom, 325_000);
    camera.zoom_step(0);
    assert_eq!(camera.zoom, 325_000);
    assert_eq!(camera.center, origin());
}

#[test]
fn zoom_step_rounds_down() {
    let mut camera = Camera::new(origin(), 300_000);
    camera.zoom_step(-1);
    assert_eq!(camera.zoom, 299_999);
    camera.zoom_step(19);
    assert_eq!(camera.zoom, 299_999);
    camera.zoom_step(20);
    assert_eq!(camera.zoom, 300_000);
}

#[test]
fn zoom_stays_in_range_for_any_scroll_sequence() {
    let deltas: [i64; 12] = [
        i64::MAX,
        i64::MAX,
        -3,
        i64::MIN,
        i64::MIN,
        7 * UNIT,
        -40 * UNIT,
        UNIT,
        1_000 * UNIT,
        -UNIT,
        0,
        i64::MIN,
    ];
    let mut camera = Camera::new(origin(), ZOOM_DEFAULT);
    for delta in deltas {
        camera.zoom_step(delta);
        assert!(0 <= camera.zoom && camera.zoom <= UNIT);
    }
    assert_eq!(camera.zoom, 0);
}

#[test]
fn zoom_overshoot_is_not_banked() {
    let mut camera = Camera::new(origin(), 900_000);
    camera.zoom_step(10 * UNIT);
    assert_eq!(camera.zoom, UNIT);
    camera.zoom_step(-UNIT);
    assert_eq!(camera.zoom, 950_000);
    camera.zoom_step(-100 * UNIT);
    assert_eq!(camera.zoom, 0);
    camera.zoom_step(UNIT);
    assert_eq!(camera.zoom, 50_000);
}

#[test]
fn scale_factor_interpolates_between_bounds() {
    assert_eq!(Camera::new(origin(), 0).scale_factor(), ZOOM_MIN);
    assert_eq!(Camera::new(origin(), UNIT).scale_factor(), ZOOM_MAX);
    assert_eq!(Camera::new(origin(), 500_000).scale_factor(), 260_000);
    assert_eq!(Camera::new(origin(), 300_000).scale_factor(), 164_000);
    assert_eq!(Camera::new(origin(), 1).scale_factor(), 20_000);
    assert_eq!(Camera::new(origin(), 3).scale_factor(), 20_001);
}

#[test]
fn scale_factor_never_decreases_with_zoom() {
    let mut last = Camera::new(origin(), 0).scale_factor();
    let mut zoom: i64 = 0;
    while zoom <= UNIT {
        let scale = Camera::new(origin(), zoom).scale_factor();
        assert!(scale >= last);
        assert!(ZOOM_MIN <= scale && scale <= ZOOM_MAX);
        last = scale;
        zoom += 777;
    }
}

#[test]
fn advance_with_zero_direction_moves_nothing() {
    let center = Point { x: -3_500_000, y: 42 };
    for delta_ns in [0u64, 1, 16_666_667, 250_000_000, u64::MAX] {
        let mut camera = Camera::new(center, 123_456);
        camera.advance(Direction { x: 0, y: 0 }, delta_ns);
        assert_eq!(camera, Camera { center, zoom: 123_456 });
    }
}

#[test]
fn advance_along_x_moves_by_speed_times_time() {
    assert_eq!(CAMERA_SPEED, 4);
    let mut camera = Camera::new(Point { x: 2 * UNIT, y: -UNIT }, ZOOM_DEFAULT);
    camera.advance(Direction { x: 1, y: 0 }, 250_000_000);
    assert_eq!(camera.center, Point { x: 3 * UNIT, y: -UNIT });
    camera.advance(Direction { x: -1, y: 0 }, 500_000_000);
    assert_eq!(camera.center, Point { x: UNIT, y: -UNIT });
    camera.advance(Direction { x: 0, y: 1 }, 1_000_000_000);
    assert_eq!(camera.center, Point { x: UNIT, y: 3 * UNIT });
    camera.advance(Direction { x: 0, y: -1 }, 16_666_667);
    assert_eq!(camera.center, Point { x: UNIT, y: 3 * UNIT - 66_666 });
    assert_eq!(camera.zoom, ZOOM_DEFAULT);
}

#[test]
fn advance_along_a_diagonal_shares_the_step() {
    let mut camera = Camera::new(origin(), ZOOM_DEFAULT);
    camera.advance(Direction { x: 1, y: -1 }, 1_000_000_000);
    assert_eq!(camera.center, Point { x: 2_828_424, y: -2_828_424 });
    let step: i128 = 4_000_000;
    let moved: i128 = 2_828_424;
    assert!(2 * moved * moved <= step * step);
}

#[test]
fn advance_saturates_at_the_end_of_the_range() {
    let mut camera = Camera::new(Point { x: i64::MAX - 5, y: i64::MIN + 5 }, ZOOM_DEFAULT);
    camera.advance(Direction { x: 1, y: -1 }, u64::MAX);
    assert_eq!(camera.center, Point { x: i64::MAX, y: i64::MIN });
}

#[test]
fn floor_div_rounds_toward_negative_infinity() {
    assert_eq!(floor_div(7, 2), 3);
    assert_eq!(floor_div(-7, 2), -4);
    assert_eq!(floor_div(-8, 2), -4);
    assert_eq!(floor_div(0, 5), 0);
    assert_eq!(floor_div(-1, 1_000_000), -1);
    assert_eq!(floor_div(i128::MIN, 1), i128::MIN);
}

#[test]
fn saturate_clamps_to_the_i64_range() {
    assert_eq!(saturate(0), 0);
    assert_eq!(saturate(-17), -17);
    assert_eq!(saturate(i64::MAX as i128), i64::MAX);
    assert_eq!(saturate(i64::MAX as i128 + 1), i64::MAX);
    assert_eq!(saturate(i64::MIN as i128 - 1), i64::MIN);
    assert_eq!(saturate(i128::MAX), i64::MAX);
}
