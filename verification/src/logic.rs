//! The decision core of one input frame: bring the pointer into world
//! coordinates, aim a ray from the view's center at it, and resolve the
//! first obstacle hit.
//!
//! Everything around this — reading the pointer, drawing, spawning the
//! particle the caller chooses — belongs to the driving loop.

use vstd::prelude::*;
use crate::num::{clamp_i64, sat_sub_i64};
use crate::ray::{Intersection, Ray, direction_between, first_intersection, spec_first_hit};
use crate::shapes::{Line, Point2d, in_bounds, line_in_bounds};
use crate::view::Viewport;

verus! {

/// The pointer position brought into world coordinates: the view's pan
/// offset undone, saturating.
pub open spec fn spec_world_mouse(view: Viewport, mouse: Point2d) -> Point2d {
    Point2d {
        x: clamp_i64(mouse.x - view.offset.x) as i64,
        y: clamp_i64(mouse.y - view.offset.y) as i64,
    }
}

/// Cast a ray from the view's center toward the pointer and keep the
/// first line it hits, in the lines' own order.  Degenerate aims — a
/// pointer exactly on the center, or coordinates beyond the geometric
/// range — resolve to no hit.
pub fn pointer_cast(view: &Viewport, mouse: Point2d, lines: &Vec<Line>) -> (r: Option<Intersection>)
    requires
        forall|i: int| 0 <= i < lines@.len() ==> line_in_bounds(#[trigger] lines@[i]),
    ensures
        ({
            let wm = spec_world_mouse(*view, mouse);
            if in_bounds(view.center) && in_bounds(wm) && wm != view.center {
                r == spec_first_hit(
                    Ray { source: view.center, direction: direction_between(view.center, wm) },
                    lines@,
                )
            } else {
                r is None
            }
        }),
{
    let view_mouse = Point2d {
        x: sat_sub_i64(mouse.x, view.offset.x),
        y: sat_sub_i64(mouse.y, view.offset.y),
    };
    let limit: i64 = crate::num::COORD_LIMIT;
    if view.center.x < -limit || view.center.x > limit || view.center.y < -limit
        || view.center.y > limit {
        return None;
    }
    if view_mouse.x < -limit || view_mouse.x > limit || view_mouse.y < -limit
        || view_mouse.y > limit {
        return None;
    }
    if view_mouse.x == view.center.x && view_mouse.y == view.center.y {
        return None;
    }
    let ray = Ray::new(view.center, view_mouse);
    first_intersection(&ray, lines)
}

} // verus!
