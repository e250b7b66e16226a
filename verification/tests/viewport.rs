use ray_particles::logic::pointer_cast;
use ray_particles::num::SCALE;
use ray_particles::shapes::{Circle, Line, Point2d, Rgb};
use ray_particles::view::{Viewport, handle_keypress};

fn pt(x: i64, y: i64) -> Point2d {
    Point2d { x: x * SCALE, y: y * SCALE }
}

fn black() -> Rgb {
    Rgb { r: 0, g: 0, b: 0 }
}

fn demo_view() -> Viewport {
    Viewport::new(pt(0, 0), pt(800, 600))
}

#[test]
fn transform_applies_offset() {
    let mut view = demo_view();
    view.shift_view_by(pt(10, -5));
    assert_eq!(view.transform(&pt(1, 1)), pt(11, -4));
}

#[test]
fn keypresses_pan_and_reset() {
    let mut view = demo_view();
    handle_keypress(&mut view, 37);
    assert_eq!(view.offset, pt(10, 0));
    handle_keypress(&mut view, 38);
    assert_eq!(view.offset, pt(10, 10));
    handle_keypress(&mut view, 39);
    assert_eq!(view.offset, pt(0, 10));
    handle_keypress(&mut view, 40);
    assert_eq!(view.offset, pt(0, 0));
    handle_keypress(&mut view, 37);
    handle_keypress(&mut view, 37);
    assert_eq!(view.offset, pt(20, 0));
    // "C" resets all panning.
    handle_keypress(&mut view, 67);
    assert_eq!(view.offset, pt(0, 0));
    // Unknown keys change nothing.
    handle_keypress(&mut view, 13);
    assert_eq!(view.offset, pt(0, 0));
    assert_eq!(view.center, pt(0, 0));
    assert_eq!(view.size, pt(800, 600));
}

#[test]
fn line_visibility_follows_the_viewport() {
    let view = demo_view();
    let inside = Line::new(pt(10, 10), pt(100, 100), black());
    let outside = Line::new(pt(-50, -50), pt(-10, -10), black());
    assert!(inside.in_view(&view));
    assert!(!outside.in_view(&view));
    // Panning by 10 brings the nearer corner onto the viewport's edge.
    let mut panned = demo_view();
    panned.shift_view_by(pt(10, 10));
    assert!(outside.in_view(&panned));
}

#[test]
fn circle_visibility_in_default_view() {
    let view = demo_view();
    let circle = Circle::new(pt(100, 100), 10, black());
    assert!(circle.in_view(&view));
}

#[test]
fn circle_visibility_box_spreads_by_drawn_x() {
    // The visibility box is spread by the drawn x-coordinate less half the
    // radius, not by the radius: a circle far off to the lower left still
    // reports itself visible, because its box stretches past the origin.
    let view = demo_view();
    let far_off = Circle::new(pt(-100, -100), 10, black());
    assert!(far_off.in_view(&view));
}

#[test]
fn pointer_cast_resolves_first_wall() {
    // The demo's four walls around the center, aimed at from the middle.
    let view = demo_view();
    let walls = vec![
        *Line::new(pt(200, -200), pt(200, 200), black()),
        *Line::new(pt(-200, -200), pt(-200, 200), black()),
        *Line::new(pt(-200, 200), pt(200, 200), black()),
        *Line::new(pt(-200, -200), pt(200, -200), black()),
    ];
    let hit = pointer_cast(&view, pt(50, 0), &walls).expect("must hit the right wall");
    assert_eq!(hit.point, pt(200, 0));
    let hit = pointer_cast(&view, pt(-50, 0), &walls).expect("must hit the left wall");
    assert_eq!(hit.point, pt(-200, 0));
    let hit = pointer_cast(&view, pt(0, 70), &walls).expect("must hit a horizontal wall");
    assert_eq!(hit.point, pt(0, 200));
}

#[test]
fn pointer_cast_on_center_resolves_to_nothing() {
    let view = demo_view();
    let walls = vec![*Line::new(pt(200, -200), pt(200, 200), black())];
    assert!(pointer_cast(&view, pt(0, 0), &walls).is_none());
}

#[test]
fn pointer_cast_undoes_the_pan() {
    // With the view panned right by 250, a pointer at the drawn origin
    // means world (-250, 0): the ray heads left.
    let mut view = demo_view();
    view.shift_view_by(pt(250, 0));
    let walls = vec![
        *Line::new(pt(200, -200), pt(200, 200), black()),
        *Line::new(pt(-200, -200), pt(-200, 200), black()),
    ];
    let hit = pointer_cast(&view, pt(0, 0), &walls).expect("must hit the left wall");
    assert_eq!(hit.point, pt(-200, 0));
}
