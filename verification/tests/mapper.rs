use chessrs::camera::Camera;
use chessrs::fixed::{Point, UNIT};
use chessrs::mapper::{board_to_screen, ndc_to_board, pixel_to_ndc, AspectCorrection};

fn aspect(num: u32, den: u32) -> AspectCorrection {
    AspectCorrection::new(num, den).unwrap()
}

#[test]
fn aspect_correction_rejects_zero() {
    assert_eq!(AspectCorrection::new(0, 4), None);
    assert_eq!(AspectCorrection::new(4, 0), None);
    assert_eq!(AspectCorrection::new(3, 4), Some(AspectCorrection { num: 3, den: 4 }));
    assert_eq!(AspectCorrection::from_viewport(0, 600), None);
    assert_eq!(AspectCorrection::from_viewport(800, 0), None);
    assert_eq!(
        AspectCorrection::from_viewport(800, 600),
        Some(AspectCorrection { num: 600, den: 800 })
    );
}

#[test]
fn pixel_to_ndc_maps_corners_and_middle() {
    assert_eq!(pixel_to_ndc(0, 0, 800, 600), Some(Point { x: -UNIT, y: UNIT }));
    assert_eq!(pixel_to_ndc(800, 600, 800, 600), Some(Point { x: UNIT, y: -UNIT }));
    assert_eq!(pixel_to_ndc(400, 300, 800, 600), Some(Point { x: 0, y: 0 }));
    assert_eq!(pixel_to_ndc(200, 600, 800, 800), Some(Point { x: -500_000, y: -500_000 }));
    assert_eq!(pixel_to_ndc(1, 1, 3, 3), Some(Point { x: -333_334, y: 333_334 }));
    assert_eq!(pixel_to_ndc(-3, -3, 3, 3), Some(Point { x: -3 * UNIT, y: 3 * UNIT }));
}

#[test]
fn pixel_to_ndc_rejects_an_empty_viewport() {
    assert_eq!(pixel_to_ndc(10, 10, 0, 600), None);
    assert_eq!(pixel_to_ndc(10, 10, 800, 0), None);
    assert_eq!(pixel_to_ndc(0, 0, 0, 0), None);
}

#[test]
fn pixel_to_ndc_takes_the_extremes() {
    assert_eq!(
        pixel_to_ndc(i32::MAX, i32::MIN, 1, 1),
        Some(Point { x: 4_294_967_293_000_000, y: 4_294_967_297_000_000 })
    );
}

#[test]
fn board_to_screen_scales_offset_from_center() {
    let camera = Camera::new(Point { x: 0, y: 0 }, UNIT);
    let p = Point { x: UNIT, y: UNIT };
    assert_eq!(board_to_screen(p, &camera, aspect(400, 800)), Point { x: 250_000, y: 500_000 });
    assert_eq!(board_to_screen(p, &camera, aspect(1, 1)), Point { x: 500_000, y: 500_000 });
    assert_eq!(board_to_screen(p, &camera, aspect(2, 1)), Point { x: UNIT, y: 500_000 });
    let moved = Camera::new(Point { x: 3 * UNIT, y: -UNIT }, 0);
    assert_eq!(board_to_screen(p, &moved, aspect(1, 1)), Point { x: -40_000, y: 40_000 });
    assert_eq!(board_to_screen(moved.center, &moved, aspect(3, 7)), Point { x: 0, y: 0 });
}

#[test]
fn ndc_to_board_inverts_the_view() {
    let camera = Camera::new(Point { x: 0, y: 0 }, UNIT);
    let n = Point { x: 250_000, y: 500_000 };
    assert_eq!(ndc_to_board(n, &camera, aspect(400, 800)), Point { x: UNIT, y: UNIT });
    let moved = Camera::new(Point { x: 3 * UNIT, y: -UNIT }, 0);
    assert_eq!(
        ndc_to_board(Point { x: -40_000, y: 40_000 }, &moved, aspect(1, 1)),
        Point { x: UNIT, y: UNIT }
    );
}

#[test]
fn mapping_saturates_at_the_end_of_the_range() {
    let camera = Camera::new(Point { x: i64::MIN, y: i64::MAX }, UNIT);
    let p = Point { x: i64::MAX, y: i64::MIN };
    assert_eq!(
        board_to_screen(p, &camera, aspect(u32::MAX, 1)),
        Point { x: i64::MAX, y: i64::MIN }
    );
    let low = Camera::new(Point { x: i64::MAX, y: i64::MIN }, 0);
    assert_eq!(
        ndc_to_board(Point { x: i64::MAX, y: i64::MIN }, &low, aspect(1, u32::MAX)),
        Point { x: i64::MAX, y: i64::MIN }
    );
}

#[test]
fn round_trip_returns_within_tolerance() {
    let centers = [
        Point { x: 0, y: 0 },
        Point { x: 4 * UNIT, y: 2 * UNIT },
        Point { x: -100_500_000, y: 250 * UNIT },
    ];
    let zooms = [0, 1, 300_000, 500_000, 999_999, UNIT];
    let aspects = [aspect(1, 1), aspect(1, 2), aspect(2, 1), aspect(600, 800)];
    let points = [
        Point { x: 0, y: 0 },
        Point { x: 3_250_000, y: -7_500_000 },
        Point { x: -1, y: 1 },
        Point { x: 9 * UNIT + 333_333, y: 9 * UNIT - 1 },
        Point { x: -123_456_789, y: 987_654_321 },
    ];
    for center in centers {
        for zoom in zooms {
            let camera = Camera::new(center, zoom);
            let scale = camera.scale_factor();
            for a in aspects {
                let tolerance_x = UNIT * a.den as i64 / (scale * a.num as i64) + 1;
                let tolerance_y = UNIT / scale + 1;
                for p in points {
                    let back = ndc_to_board(board_to_screen(p, &camera, a), &camera, a);
                    assert!(back.x <= p.x && p.x - back.x <= tolerance_x);
                    assert!(back.y <= p.y && p.y - back.y <= tolerance_y);
                }
            }
        }
    }
}

#[test]
fn middle_pixel_shows_the_camera_center() {
    let centers = [Point { x: 0, y: 0 }, Point { x: -7_250_000, y: 12 * UNIT + 1 }];
    for center in centers {
        for zoom in [0, 300_000, UNIT] {
            for (width, height) in [(800u32, 800u32), (1920, 1080), (2, 4), (640, 480)] {
                let camera = Camera::new(center, zoom);
                let a = AspectCorrection::from_viewport(width, height).unwrap();
                let ndc =
                    pixel_to_ndc((width / 2) as i32, (height / 2) as i32, width, height).unwrap();
                assert_eq!(ndc, Point { x: 0, y: 0 });
                assert_eq!(ndc_to_board(ndc, &camera, a), center);
            }
        }
    }
}

#[test]
fn screen_round_trip_returns_within_tolerance() {
    let aspects = [aspect(1, 1), aspect(1, 2), aspect(2, 1), aspect(1080, 1920)];
    let screen_points = [
        Point { x: 0, y: 0 },
        Point { x: UNIT, y: -UNIT },
        Point { x: -333_334, y: 333_334 },
        Point { x: 1, y: -1 },
    ];
    for zoom in [0, 300_000, UNIT] {
        let camera = Camera::new(Point { x: -2_500_000, y: 7 * UNIT }, zoom);
        let scale = camera.scale_factor();
        for a in aspects {
            let tolerance_x = scale * a.num as i64 / (UNIT * a.den as i64) + 1;
            let tolerance_y = scale / UNIT + 1;
            for n in screen_points {
                let back = board_to_screen(ndc_to_board(n, &camera, a), &camera, a);
                assert!(back.x <= n.x && n.x - back.x <= tolerance_x);
                assert!(back.y <= n.y && n.y - back.y <= tolerance_y);
            }
        }
    }
}
