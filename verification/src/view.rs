//! The viewport: a pan offset applied to world points before drawing,
//! keyboard panning, and visibility tests for the scene's shapes.

use vstd::prelude::*;
use crate::num::{SCALE, clamp_i64, sat_add_i64, sat_sub_i64};
use crate::shapes::{Circle, CollisionRectangle, Line, Point2d, collides, rect_between};

verus! {

/// The view over the scene: a pan offset added to every drawn point, the
/// world point at the view's center, and the view's size, all in
/// fixed-point units.
#[derive(Clone, Copy, PartialEq, Eq, Structural, Debug)]
pub struct Viewport {
    pub offset: Point2d,
    pub center: Point2d,
    pub size: Point2d,
}

/// A world point shifted by the view's pan offset, saturating at the
/// coordinate range.
pub open spec fn spec_transform(view: Viewport, p: Point2d) -> Point2d {
    Point2d {
        x: clamp_i64(p.x + view.offset.x) as i64,
        y: clamp_i64(p.y + view.offset.y) as i64,
    }
}

/// The viewport rectangle: from the origin to the view's size.
pub open spec fn viewport(view: Viewport) -> CollisionRectangle {
    rect_between(Point2d { x: 0, y: 0 }, view.size)
}

impl Viewport {
    /// A view of the given size centered on `center`, not yet panned.
    pub fn new(center: Point2d, size: Point2d) -> (r: Self)
        ensures
            r.offset == (Point2d { x: 0, y: 0 }),
            r.center == center,
            r.size == size,
    {
        Viewport { offset: Point2d { x: 0, y: 0 }, center, size }
    }

    /// The point as drawn: shifted by the pan offset.
    pub fn transform(&self, p: &Point2d) -> (r: Point2d)
        ensures
            r == spec_transform(*self, *p),
    {
        Point2d { x: sat_add_i64(p.x, self.offset.x), y: sat_add_i64(p.y, self.offset.y) }
    }

    /// Pan the view by `by`, saturating.
    pub fn shift_view_by(&mut self, by: Point2d)
        ensures
            final(self).offset.x == clamp_i64(old(self).offset.x + by.x),
            final(self).offset.y == clamp_i64(old(self).offset.y + by.y),
            final(self).center == old(self).center,
            final(self).size == old(self).size,
    {
        self.offset = Point2d {
            x: sat_add_i64(self.offset.x, by.x),
            y: sat_add_i64(self.offset.y, by.y),
        };
    }

    /// Undo all panning.
    pub fn reset_view(&mut self)
        ensures
            final(self).offset == (Point2d { x: 0, y: 0 }),
            final(self).center == old(self).center,
            final(self).size == old(self).size,
    {
        self.offset = Point2d { x: 0, y: 0 };
    }
}

/// Keyboard panning: the arrow keys shift the view by ten world units and
/// the key "C" resets it; every other key is ignored.
pub fn handle_keypress(view: &mut Viewport, key_code: u32)
    ensures
        final(view).center == old(view).center,
        final(view).size == old(view).size,
        key_code == 37 ==> final(view).offset == (Point2d {
            x: clamp_i64(old(view).offset.x + 10 * SCALE) as i64,
            y: old(view).offset.y,
        }),
        key_code == 38 ==> final(view).offset == (Point2d {
            x: old(view).offset.x,
            y: clamp_i64(old(view).offset.y + 10 * SCALE) as i64,
        }),
        key_code == 39 ==> final(view).offset == (Point2d {
            x: clamp_i64(old(view).offset.x - 10 * SCALE) as i64,
            y: old(view).offset.y,
        }),
        key_code == 40 ==> final(view).offset == (Point2d {
            x: old(view).offset.x,
            y: clamp_i64(old(view).offset.y - 10 * SCALE) as i64,
        }),
        key_code == 67 ==> final(view).offset == (Point2d { x: 0, y: 0 }),
        !(key_code == 37 || key_code == 38 || key_code == 39 || key_code == 40 || key_code == 67)
            ==> final(view).offset == old(view).offset,
{
    match key_code {
        37 => {
            // left
            view.shift_view_by(Point2d { x: 10 * SCALE, y: 0 });
        },
        38 => {
            // up
            view.shift_view_by(Point2d { x: 0, y: 10 * SCALE });
        },
        39 => {
            // right
            view.shift_view_by(Point2d { x: -10 * SCALE, y: 0 });
        },
        40 => {
            // down
            view.shift_view_by(Point2d { x: 0, y: -10 * SCALE });
        },
        67 => {
            // "C"
            view.reset_view();
        },
        _ => {},
    }
}

impl Line {
    /// Whether the line's transformed bounding box meets the viewport.
    pub fn in_view(&self, view: &Viewport) -> (r: bool)
        ensures
            r == collides(
                rect_between(spec_transform(*view, self.from), spec_transform(*view, self.to)),
                viewport(*view),
            ),
    {
        let from = view.transform(&self.from);
        let to = view.transform(&self.to);

        let r: CollisionRectangle = CollisionRectangle::new(from, to);
        let v: CollisionRectangle = CollisionRectangle::new(Point2d { x: 0, y: 0 }, view.size);

        r.collides_with(v)
    }
}

/// The box a circle's visibility is tested with: its transformed center,
/// spread on both axes by the center's drawn x-coordinate less half the
/// radius.
pub open spec fn circle_box(center: Point2d, radius: int) -> CollisionRectangle {
    let off = clamp_i64(center.x - radius * (SCALE / 2));
    rect_between(
        Point2d {
            x: clamp_i64(center.x - off) as i64,
            y: clamp_i64(center.y - off) as i64,
        },
        Point2d {
            x: clamp_i64(center.x + off) as i64,
            y: clamp_i64(center.y + off) as i64,
        },
    )
}

impl Circle {
    /// Whether the circle's visibility box meets the viewport.
    pub fn in_view(&self, view: &Viewport) -> (r: bool)
        ensures
            r == collides(circle_box(spec_transform(*view, self.center_point), self.radius as int), viewport(*view)),
    {
        let center = view.transform(&self.center_point);
        let offset = sat_sub_i64(center.x, (self.radius as i64) * (SCALE / 2));
        let top_left = Point2d {
            x: sat_sub_i64(center.x, offset),
            y: sat_sub_i64(center.y, offset),
        };
        let bottom_right = Point2d {
            x: sat_add_i64(center.x, offset),
            y: sat_add_i64(center.y, offset),
        };

        let r: CollisionRectangle = CollisionRectangle::new(top_left, bottom_right);
        let v: CollisionRectangle = CollisionRectangle::new(Point2d { x: 0, y: 0 }, view.size);

        r.collides_with(v)
    }
}

} // verus!
