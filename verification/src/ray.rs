//! A ray anchored at a fixed source, and exact intersection testing against
//! line obstacles.
//!
//! `intersects_line` solves the 2x2 linear system of the ray and the
//! segment with exact integer arithmetic: the segment parameter `t` and ray
//! parameter `u` are compared as exact fractions, and only the final
//! fixed-point results are rounded, each by one truncating division.

use vstd::prelude::*;
use crate::num::{SCALE, lemma_tdiv_abs_upper, lemma_tdiv_bounds, lemma_tdiv_mul_upper, tdiv,
    tdiv_i128};
use crate::shapes::{Line, Point2d, in_bounds, line_in_bounds, magnitude};

verus! {

/// A directed half-line: a fixed source and a re-aimable direction.
#[derive(Clone, Copy, PartialEq, Eq, Structural, Debug)]
pub struct Ray {
    pub source: Point2d,
    pub direction: Point2d,
}

/// A successful cast: where the ray met the obstacle, and how.
#[derive(Clone, Copy, PartialEq, Eq, Structural, Debug)]
pub struct Intersection {
    /// The hit point, on the target line.
    pub point: Point2d,
    /// The ray's direction at the time of the cast.
    pub direction: Point2d,
    /// The line that was hit.
    pub target: Line,
    /// Position along the target, `0` at `from`, `SCALE` at `to`.
    pub place_on_segment: i64,
    /// Distance from the source in units of the direction vector, never
    /// negative; saturates at `i64::MAX`.
    pub distance_along_ray: i64,
    /// A bounce heuristic: the vector from the hit point toward the nearer
    /// endpoint of the target.
    pub reflection_direction: Point2d,
}

/// The unit direction from `source` toward `aim`, componentwise
/// `delta * SCALE / magnitude`, rounded toward zero.
pub open spec fn direction_between(source: Point2d, aim: Point2d) -> Point2d {
    let dx = aim.x - source.x;
    let dy = aim.y - source.y;
    Point2d {
        x: tdiv(dx * SCALE, magnitude(dx, dy)) as i64,
        y: tdiv(dy * SCALE, magnitude(dx, dy)) as i64,
    }
}

/// Whether a direction vector is bounded by one `SCALE` per component, as
/// every normalized direction is.
pub open spec fn dir_bounded(d: Point2d) -> bool {
    &&& -SCALE <= d.x <= SCALE
    &&& -SCALE <= d.y <= SCALE
}

/// The determinant of the 2x2 system for a cast; zero exactly when the ray
/// is parallel to the line.
pub open spec fn cast_denom(ray: Ray, line: Line) -> int {
    (line.from.x - line.to.x) * (-ray.direction.y) - (line.from.y - line.to.y) * (-ray.direction.x)
}

/// Numerator of the segment parameter `t` (before sign normalization).
pub open spec fn cast_t_num(ray: Ray, line: Line) -> int {
    (line.from.x - ray.source.x) * (-ray.direction.y) - (line.from.y - ray.source.y) * (-ray.direction.x)
}

/// Numerator of the ray parameter `u` (before sign normalization).
pub open spec fn cast_u_num(ray: Ray, line: Line) -> int {
    -((line.from.x - line.to.x) * (line.from.y - ray.source.y) - (line.from.y - line.to.y) * (line.from.x - ray.source.x))
}

/// The intersection record built from the sign-normalized fractions
/// `t = tn / dn` and `u = un / dn`, with `dn > 0`.
pub open spec fn intersection_at(ray: Ray, line: Line, tn: int, dn: int, un: int) -> Intersection {
    let t_fixed = tdiv(tn * SCALE, dn);
    let px = line.from.x + tdiv(t_fixed * (line.to.x - line.from.x), SCALE as int);
    let py = line.from.y + tdiv(t_fixed * (line.to.y - line.from.y), SCALE as int);
    let u_fixed = tdiv(un * SCALE, dn);
    let corner = if 2 * tn < dn {
        line.from
    } else {
        line.to
    };
    Intersection {
        point: Point2d { x: px as i64, y: py as i64 },
        direction: ray.direction,
        target: line,
        place_on_segment: t_fixed as i64,
        distance_along_ray: (if u_fixed > i64::MAX {
            i64::MAX as int
        } else {
            u_fixed
        }) as i64,
        reflection_direction: Point2d { x: (corner.x - px) as i64, y: (corner.y - py) as i64 },
    }
}

/// What a cast returns: `None` for a parallel line, for a hit outside the
/// segment (`t` outside `[0, 1]`), or for a hit behind the source
/// (`u < 0`); otherwise the intersection record.
pub open spec fn spec_cast(ray: Ray, line: Line) -> Option<Intersection> {
    let denom = cast_denom(ray, line);
    if denom == 0 {
        None
    } else {
        let dn = if denom > 0 { denom } else { -denom };
        let tn = if denom > 0 { cast_t_num(ray, line) } else { -cast_t_num(ray, line) };
        let un = if denom > 0 { cast_u_num(ray, line) } else { -cast_u_num(ray, line) };
        if tn < 0 || tn > dn || un < 0 {
            None
        } else {
            Some(intersection_at(ray, line, tn, dn, un))
        }
    }
}

/// The first line of the sequence whose cast succeeds wins, whether or not
/// a later line would be hit closer.
pub open spec fn spec_first_hit(ray: Ray, lines: Seq<Line>) -> Option<Intersection>
    decreases lines.len(),
{
    if lines.len() == 0 {
        None
    } else if spec_cast(ray, lines[0]) is Some {
        spec_cast(ray, lines[0])
    } else {
        spec_first_hit(ray, lines.drop_first())
    }
}

/// A segment parameter in `[0, 1]` maps to a fixed-point value in
/// `[0, SCALE]`.
proof fn lemma_t_fixed_range(tn: int, dn: int)
    requires
        0 <= tn <= dn,
        dn > 0,
    ensures
        0 <= tdiv(tn * SCALE, dn) <= SCALE,
{
    lemma_tdiv_mul_upper(tn * SCALE, dn, SCALE as int);
}

/// Advancing by a fraction in `[0, 1]` of a span never leaves the span.
proof fn lemma_step_bound(t_fixed: int, delta: int)
    requires
        0 <= t_fixed <= SCALE,
    ensures
        delta >= 0 ==> 0 <= tdiv(t_fixed * delta, SCALE as int) <= delta,
        delta < 0 ==> delta <= tdiv(t_fixed * delta, SCALE as int) <= 0,
{
    let k = if delta >= 0 { delta } else { -delta };
    assert(-(k * SCALE) <= t_fixed * delta <= k * SCALE
        && (delta >= 0 ==> t_fixed * delta >= 0)
        && (delta < 0 ==> t_fixed * delta <= 0)) by (nonlinear_arith)
        requires
            0 <= t_fixed <= SCALE,
            k == if delta >= 0 { delta } else { -delta },
            SCALE == 1_000_000,
    ;
    lemma_tdiv_abs_upper(t_fixed * delta, SCALE as int, k);
    lemma_tdiv_bounds(t_fixed * delta, SCALE as int);
}

/// For all rays and lines: a hit returned by a cast lies on the target —
/// `place_on_segment` within `[0, SCALE]` and each point coordinate
/// between the endpoints' — lies ahead of the source
/// (`distance_along_ray` non-negative), and its point is reconstructed
/// exactly from `place_on_segment` by the system's own arithmetic.
pub proof fn lemma_hit_on_segment(ray: Ray, line: Line)
    requires
        spec_cast(ray, line) matches Some(i),
    ensures
        spec_cast(ray, line) matches Some(i) ==> {
            &&& 0 <= i.place_on_segment <= SCALE
            &&& i.distance_along_ray >= 0
            &&& i.point.x == line.from.x + tdiv(i.place_on_segment * (line.to.x - line.from.x), SCALE as int)
            &&& i.point.y == line.from.y + tdiv(i.place_on_segment * (line.to.y - line.from.y), SCALE as int)
            &&& vstd::math::min(line.from.x as int, line.to.x as int) <= i.point.x
                <= vstd::math::max(line.from.x as int, line.to.x as int)
            &&& vstd::math::min(line.from.y as int, line.to.y as int) <= i.point.y
                <= vstd::math::max(line.from.y as int, line.to.y as int)
            &&& i.direction == ray.direction
            &&& i.target == line
        },
{
    let denom = cast_denom(ray, line);
    let dn = if denom > 0 { denom } else { -denom };
    let tn = if denom > 0 { cast_t_num(ray, line) } else { -cast_t_num(ray, line) };
    let un = if denom > 0 { cast_u_num(ray, line) } else { -cast_u_num(ray, line) };
    lemma_t_fixed_range(tn, dn);
    lemma_step_bound(tdiv(tn * SCALE, dn), line.to.x - line.from.x);
    lemma_step_bound(tdiv(tn * SCALE, dn), line.to.y - line.from.y);
    lemma_tdiv_bounds(un * SCALE, dn);
}

/// The fractions a cast works from truly solve the intersection
/// equations: with `t = cast_t_num / cast_denom` and
/// `u = cast_u_num / cast_denom`, the point of the segment at `t` is the
/// point of the ray at `u` — stated here with the common denominator
/// cleared, so it holds as an exact integer identity.
pub proof fn lemma_cast_solves_system(ray: Ray, line: Line)
    ensures
        line.from.x * cast_denom(ray, line) + cast_t_num(ray, line) * (line.to.x - line.from.x)
            == ray.source.x * cast_denom(ray, line) + cast_u_num(ray, line) * ray.direction.x,
        line.from.y * cast_denom(ray, line) + cast_t_num(ray, line) * (line.to.y - line.from.y)
            == ray.source.y * cast_denom(ray, line) + cast_u_num(ray, line) * ray.direction.y,
{
    let fx = line.from.x as int;
    let fy = line.from.y as int;
    let tx = line.to.x as int;
    let ty = line.to.y as int;
    let sx = ray.source.x as int;
    let sy = ray.source.y as int;
    let dx = ray.direction.x as int;
    let dy = ray.direction.y as int;
    let a = fx - tx;
    let b = fy - ty;
    let c = -dy;
    let d = -dx;
    let e = fx - sx;
    let f = fy - sy;
    let dd = a * c - b * d;
    let tt = e * c - f * d;
    let uu = -(a * f - b * e);
    // Cramer's rule, with the denominator cleared: six opaque integers.
    assert(e * (a * c - b * d) == (e * c - f * d) * a + (a * f - b * e) * d) by (nonlinear_arith);
    assert(f * (a * c - b * d) == (e * c - f * d) * b + (a * f - b * e) * c) by (nonlinear_arith);
    vstd::arithmetic::mul::lemma_mul_unary_negation(uu, d);
    vstd::arithmetic::mul::lemma_mul_unary_negation(uu, c);
    assert(e * dd == tt * a - uu * d);
    assert(f * dd == tt * b - uu * c);
    lemma_neg_factor(tt, a);
    lemma_neg_factor(tt, b);
    lemma_neg_factor(uu, d);
    lemma_neg_factor(uu, c);
    vstd::arithmetic::mul::lemma_mul_is_distributive_sub_other_way(dd, fx, sx);
    vstd::arithmetic::mul::lemma_mul_is_distributive_sub_other_way(dd, fy, sy);
    assert(fx * dd + tt * (tx - fx) == sx * dd + uu * dx);
    assert(fy * dd + tt * (ty - fy) == sy * dd + uu * dy);
}

/// Negation moves freely out of a product's second factor.
proof fn lemma_neg_factor(x: int, y: int)
    ensures
        x * (-y) == -(x * y),
{
    vstd::arithmetic::mul::lemma_mul_is_commutative(x, -y);
    vstd::arithmetic::mul::lemma_mul_unary_negation(y, x);
    vstd::arithmetic::mul::lemma_mul_is_commutative(y, x);
}

/// A full sweep misses exactly when every line, taken alone, misses.
pub proof fn lemma_first_hit_none_iff_all_miss(ray: Ray, lines: Seq<Line>)
    ensures
        spec_first_hit(ray, lines) is None <==> (forall|i: int|
            0 <= i < lines.len() ==> spec_cast(ray, #[trigger] lines[i]) is None),
    decreases lines.len(),
{
    if lines.len() > 0 {
        lemma_first_hit_none_iff_all_miss(ray, lines.drop_first());
        assert forall|i: int| 1 <= i < lines.len() implies lines.drop_first()[i - 1] == #[trigger] lines[i] by {}
    }
}

/// For all rays and lines with the ray parallel to the line, a cast
/// returns no result.
pub proof fn lemma_parallel_no_hit(ray: Ray, line: Line)
    requires
        (line.to.x - line.from.x) * ray.direction.y == (line.to.y - line.from.y) * ray.direction.x,
    ensures
        spec_cast(ray, line) is None,
{
    assert(cast_denom(ray, line) == 0) by (nonlinear_arith)
        requires
            (line.to.x - line.from.x) * ray.direction.y == (line.to.y - line.from.y) * ray.direction.x,
    ;
}

impl Ray {
    /// Whether the ray's coordinates are in the range casts accept.
    pub open spec fn wf(self) -> bool {
        in_bounds(self.source) && dir_bounded(self.direction)
    }

    /// The unit direction from `source` toward `point`.
    fn create_direction(source: Point2d, point: Point2d) -> (r: Point2d)
        requires
            in_bounds(source),
            in_bounds(point),
            point != source,
        ensures
            r == direction_between(source, point),
            dir_bounded(r),
    {
        let look_at = Point2d { x: point.x - source.x, y: point.y - source.y };
        Point2d::normalize(look_at.x, look_at.y)
    }

    /// A ray at `source` aimed toward `direction` (a point to look at,
    /// which must differ from the source).
    pub fn new(source: Point2d, direction: Point2d) -> (r: Self)
        requires
            in_bounds(source),
            in_bounds(direction),
            direction != source,
        ensures
            r.source == source,
            r.direction == direction_between(source, direction),
            r.wf(),
    {
        let direction = Ray::create_direction(source, direction);
        Self { source, direction }
    }

    /// Re-aim the ray toward `point` without moving its source.
    pub fn look_at(&mut self, point: Point2d)
        requires
            in_bounds(old(self).source),
            in_bounds(point),
            point != old(self).source,
        ensures
            final(self).source == old(self).source,
            final(self).direction == direction_between(old(self).source, point),
            final(self).wf(),
    {
        self.direction = Ray::create_direction(self.source, point);
    }

    /// The ray's current direction.
    pub fn direction(&self) -> (r: Point2d)
        ensures
            r == self.direction,
    {
        self.direction
    }

    /// Cast the ray against one line: `None` when the line is parallel,
    /// when the crossing lies outside the segment, or when it lies behind
    /// the source; otherwise the exact intersection record.
    pub fn intersects_line(&self, line: &Line) -> (r: Option<Intersection>)
        requires
            self.wf(),
            line_in_bounds(*line),
        ensures
            r == spec_cast(*self, *line),
            r matches Some(i) ==> {
                &&& 0 <= i.place_on_segment <= SCALE
                &&& i.distance_along_ray >= 0
                &&& i.point.x == line.from.x + tdiv(i.place_on_segment * (line.to.x - line.from.x), SCALE as int)
                &&& i.point.y == line.from.y + tdiv(i.place_on_segment * (line.to.y - line.from.y), SCALE as int)
                &&& i.direction == self.direction
                &&& i.target == *line
            },
    {
        let fx: i128 = line.from.x as i128;
        let fy: i128 = line.from.y as i128;
        let tx: i128 = line.to.x as i128;
        let ty: i128 = line.to.y as i128;
        let sx: i128 = self.source.x as i128;
        let sy: i128 = self.source.y as i128;

        let a: i128 = fx - tx;
        let b: i128 = fy - ty;
        let c: i128 = -(self.direction.y as i128);
        let d: i128 = -(self.direction.x as i128);
        let e: i128 = fx - sx;
        let f: i128 = fy - sy;

        proof {
            assert(-4_000_000_000_000_000_000 <= a * c <= 4_000_000_000_000_000_000
                && -4_000_000_000_000_000_000 <= b * d <= 4_000_000_000_000_000_000
                && -4_000_000_000_000_000_000 <= e * c <= 4_000_000_000_000_000_000
                && -4_000_000_000_000_000_000 <= f * d <= 4_000_000_000_000_000_000
                && -16_000_000_000_000_000_000_000_000 <= a * f <= 16_000_000_000_000_000_000_000_000
                && -16_000_000_000_000_000_000_000_000 <= b * e <= 16_000_000_000_000_000_000_000_000)
                by (nonlinear_arith)
                requires
                    -4_000_000_000_000 <= a <= 4_000_000_000_000,
                    -4_000_000_000_000 <= b <= 4_000_000_000_000,
                    -4_000_000_000_000 <= e <= 4_000_000_000_000,
                    -4_000_000_000_000 <= f <= 4_000_000_000_000,
                    -1_000_000 <= c <= 1_000_000,
                    -1_000_000 <= d <= 1_000_000,
            ;
        }

        let denominator: i128 = a * c - b * d;
        if denominator == 0 {
            return None;
        }

        let dn: i128 = if denominator > 0 { denominator } else { -denominator };
        let tn: i128 = if denominator > 0 { e * c - f * d } else { -(e * c - f * d) };
        let un: i128 = if denominator > 0 { -(a * f - b * e) } else { a * f - b * e };

        // The crossing must lie on the target line.
        if tn < 0 || tn > dn {
            return None;
        }
        // As we're using a direction, any crossing "behind" the source is
        // invalidated.
        if un < 0 {
            return None;
        }

        proof {
            lemma_t_fixed_range(tn as int, dn as int);
            lemma_tdiv_bounds(un * SCALE, dn as int);
        }
        let t_fixed: i128 = tdiv_i128(tn * (SCALE as i128), dn);
        proof {
            assert(-4_000_000_000_000_000_000 <= t_fixed * (tx - fx) <= 4_000_000_000_000_000_000
                && -4_000_000_000_000_000_000 <= t_fixed * (ty - fy) <= 4_000_000_000_000_000_000)
                by (nonlinear_arith)
                requires
                    0 <= t_fixed <= 1_000_000,
                    -4_000_000_000_000 <= tx - fx <= 4_000_000_000_000,
                    -4_000_000_000_000 <= ty - fy <= 4_000_000_000_000,
            ;
            lemma_step_bound(t_fixed as int, line.to.x - line.from.x);
            lemma_step_bound(t_fixed as int, line.to.y - line.from.y);
        }
        let px: i128 = fx + tdiv_i128(t_fixed * (tx - fx), SCALE as i128);
        let py: i128 = fy + tdiv_i128(t_fixed * (ty - fy), SCALE as i128);

        let u_q: i128 = tdiv_i128(un * (SCALE as i128), dn);
        let distance: i64 = if u_q > i64::MAX as i128 { i64::MAX } else { u_q as i64 };

        let corner: Point2d = if 2 * tn < dn { line.from } else { line.to };

        Some(Intersection {
            point: Point2d { x: px as i64, y: py as i64 },
            direction: self.direction,
            target: *line,
            place_on_segment: t_fixed as i64,
            distance_along_ray: distance,
            reflection_direction: Point2d {
                x: (corner.x as i128 - px) as i64,
                y: (corner.y as i128 - py) as i64,
            },
        })
    }
}

/// Cast a ray against each line in order and keep the first hit: the
/// resolution policy is first-intersecting, not closest.
pub fn first_intersection(ray: &Ray, lines: &Vec<Line>) -> (r: Option<Intersection>)
    requires
        ray.wf(),
        forall|i: int| 0 <= i < lines@.len() ==> line_in_bounds(#[trigger] lines@[i]),
    ensures
        r == spec_first_hit(*ray, lines@),
{
    let n: usize = lines.len();
    let mut i: usize = 0;
    proof {
        assert(lines@.subrange(0, n as int) =~= lines@);
    }
    while i < n
        invariant
            i <= n,
            n == lines@.len(),
            ray.wf(),
            forall|j: int| 0 <= j < lines@.len() ==> line_in_bounds(#[trigger] lines@[j]),
            spec_first_hit(*ray, lines@) == spec_first_hit(*ray, lines@.subrange(i as int, n as int)),
        decreases n - i,
    {
        let hit = ray.intersects_line(&lines[i]);
        proof {
            assert(lines@.subrange(i as int, n as int)[0] == lines@[i as int]);
            assert(lines@.subrange(i as int, n as int).drop_first()
                =~= lines@.subrange(i as int + 1, n as int));
        }
        if hit.is_some() {
            return hit;
        }
        i = i + 1;
    }
    proof {
        assert(lines@.subrange(n as int, n as int).len() == 0);
    }
    None
}

} // verus!
