use ray_particles::num::SCALE;
use ray_particles::shapes::{CollisionRectangle, Point2d, Rgb, rgb};

#[test]
fn normalize_three_four_is_exact() {
    // normalize(3, 4) == (0.6, 0.8): the exact rational case.
    let r = Point2d::normalize(3 * SCALE, 4 * SCALE);
    assert_eq!(r, Point2d { x: 600_000, y: 800_000 });
    // The result has magnitude exactly one.
    assert_eq!(r.x * r.x + r.y * r.y, SCALE * SCALE);
}

#[test]
fn normalize_negative_components() {
    let r = Point2d::normalize(-3 * SCALE, 4 * SCALE);
    assert_eq!(r, Point2d { x: -600_000, y: 800_000 });
    let r = Point2d::normalize(0, -7 * SCALE);
    assert_eq!(r, Point2d { x: 0, y: -SCALE });
}

#[test]
fn normalize_axis_aligned_is_unit() {
    let r = Point2d::normalize(5 * SCALE, 0);
    assert_eq!(r, Point2d { x: SCALE, y: 0 });
}

#[test]
fn rgb_formats_uppercase_hex() {
    assert_eq!(rgb(Rgb { r: 255, g: 0, b: 0 }), "#FF0000");
    assert_eq!(rgb(Rgb { r: 0, g: 255, b: 0 }), "#00FF00");
    assert_eq!(rgb(Rgb { r: 1, g: 2, b: 3 }), "#010203");
    assert_eq!(rgb(Rgb { r: 171, g: 205, b: 239 }), "#ABCDEF");
    assert_eq!(rgb(Rgb { r: 0, g: 0, b: 0 }), "#000000");
}

#[test]
fn collision_rectangle_sorts_corners() {
    let r = CollisionRectangle::new(Point2d { x: 10, y: -5 }, Point2d { x: -10, y: 5 });
    assert_eq!(r.top_left, Point2d { x: -10, y: -5 });
    assert_eq!(r.bottom_right, Point2d { x: 10, y: 5 });
}

#[test]
fn collision_overlap_cases() {
    let a = CollisionRectangle::new(Point2d { x: 0, y: 0 }, Point2d { x: 10, y: 10 });
    let b = CollisionRectangle::new(Point2d { x: 5, y: 5 }, Point2d { x: 15, y: 15 });
    let c = CollisionRectangle::new(Point2d { x: 11, y: 0 }, Point2d { x: 20, y: 10 });
    let d = CollisionRectangle::new(Point2d { x: 0, y: 11 }, Point2d { x: 10, y: 20 });
    assert!(a.collides_with(b));
    assert!(b.collides_with(a));
    assert!(!a.collides_with(c));
    assert!(!a.collides_with(d));
}

#[test]
fn collision_touching_boundary_counts() {
    let a = CollisionRectangle::new(Point2d { x: 0, y: 0 }, Point2d { x: 10, y: 10 });
    let b = CollisionRectangle::new(Point2d { x: 10, y: 10 }, Point2d { x: 20, y: 20 });
    assert!(a.collides_with(b));
}
