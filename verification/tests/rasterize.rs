use canvas::color::Color;
use canvas::geometry::{check_range, dist_round, sqrt_round, Point};
use canvas::model::ellipse_radius;
use canvas::raster::rasterize;

#[test]
fn raster_deterministic_on_same_inputs() {
    let c = Point::new(3, -7);
    let k = Point::new(11, 2);
    let col = Color::new(4, 5, 6);
    let a = rasterize(c, k, col);
    let b = rasterize(c, k, col);
    assert_eq!(a.len(), b.len());
    for (x, y) in a.iter().zip(b.iter()) {
        assert_eq!(x, y);
    }
}

#[test]
fn raster_zero_drag_is_empty() {
    let c = Point::new(12, 34);
    let out = rasterize(c, c, Color::new(0, 0, 0));
    assert_eq!(out.len(), 0);
}

#[test]
fn raster_flat_drag_is_empty() {
    let c = Point::new(0, 0);
    let out = rasterize(c, Point::new(9, 0), Color::new(0, 0, 0));
    assert_eq!(out.len(), 0);
    let out = rasterize(c, Point::new(0, 9), Color::new(0, 0, 0));
    assert_eq!(out.len(), 0);
}

#[test]
fn raster_grid_row_major() {
    let c = Point::new(0, 0);
    let k = Point::new(2, 1);
    let col = Color::new(7, 7, 7);
    let out = rasterize(c, k, col);
    // 2 rows of 4 columns starting at the mirrored corner (-2, -1).
    assert_eq!(out.len(), 8);
    let expected = [
        (-2, -1),
        (-1, -1),
        (0, -1),
        (1, -1),
        (-2, -2),
        (-1, -2),
        (0, -2),
        (1, -2),
    ];
    for (s, (x, y)) in out.iter().zip(expected.iter()) {
        assert_eq!(s.pos, Point::new(*x, *y));
        assert_eq!(s.color, col);
    }
}

#[test]
fn sqrt_round_exact_values() {
    assert_eq!(sqrt_round(0), 0);
    assert_eq!(sqrt_round(1), 1);
    assert_eq!(sqrt_round(2), 1);
    assert_eq!(sqrt_round(3), 2);
    assert_eq!(sqrt_round(24), 5);
    assert_eq!(sqrt_round(25), 5);
    assert_eq!(sqrt_round(30), 5);
    assert_eq!(sqrt_round(31), 6);
    assert_eq!(sqrt_round(1 << 40), 1 << 20);
}

#[test]
fn dist_round_exact_values() {
    assert_eq!(dist_round(Point::new(0, 0), Point::new(3, 4)), 5);
    assert_eq!(dist_round(Point::new(0, 0), Point::new(1, 1)), 1);
    assert_eq!(dist_round(Point::new(-2, 5), Point::new(-2, 5)), 0);
    assert_eq!(dist_round(Point::new(4, 2), Point::new(4, -2)), 4);
    assert_eq!(dist_round(Point::new(-4, 2), Point::new(4, 2)), 8);
}

#[test]
fn ellipse_radius_clamps_negative_radicand() {
    // dy^2 > dx^2: the radicand clamps to zero instead of poisoning the
    // geometry.
    assert_eq!(ellipse_radius(Point::new(0, 0), Point::new(1, 5)), 0);
    assert_eq!(ellipse_radius(Point::new(0, 0), Point::new(0, 0)), 0);
}

#[test]
fn ellipse_radius_exact_values() {
    assert_eq!(ellipse_radius(Point::new(0, 0), Point::new(3, 0)), 3);
    assert_eq!(ellipse_radius(Point::new(0, 0), Point::new(5, 1)), 5);
    assert_eq!(ellipse_radius(Point::new(2, 2), Point::new(12, 2)), 10);
    assert!(ellipse_radius(Point::new(-9, 4), Point::new(200, -31)) >= 0);
}

#[test]
fn check_range_half_open_square() {
    let m = Point::new(0, 0);
    assert!(check_range(&Point::new(0, 0), m, 5));
    assert!(check_range(&Point::new(-5, -5), m, 5));
    assert!(!check_range(&Point::new(5, 0), m, 5));
    assert!(!check_range(&Point::new(0, 5), m, 5));
    assert!(!check_range(&Point::new(-6, 0), m, 5));
}
