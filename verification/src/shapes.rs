//! The scene's value types: points, colors, line obstacles, circles and
//! axis-aligned collision rectangles.
//!
//! Coordinates are fixed-point: `num::SCALE` units per world unit.

use vstd::prelude::*;
use crate::num::{COORD_LIMIT, SCALE, clamp_i64, isqrt_spec, isqrt_u128, lemma_isqrt_bounds,
    lemma_tdiv_abs_upper, tdiv, tdiv_i128};

verus! {

/// A color, one byte per channel.
#[derive(Clone, Copy, PartialEq, Eq, Structural, Debug)]
pub struct Rgb {
    pub r: u8,
    pub g: u8,
    pub b: u8,
}

/// The uppercase hexadecimal digit for a value below sixteen.
pub open spec fn hex_digit(d: int) -> char {
    if d == 0 {
        '0'
    } else if d == 1 {
        '1'
    } else if d == 2 {
        '2'
    } else if d == 3 {
        '3'
    } else if d == 4 {
        '4'
    } else if d == 5 {
        '5'
    } else if d == 6 {
        '6'
    } else if d == 7 {
        '7'
    } else if d == 8 {
        '8'
    } else if d == 9 {
        '9'
    } else if d == 10 {
        'A'
    } else if d == 11 {
        'B'
    } else if d == 12 {
        'C'
    } else if d == 13 {
        'D'
    } else if d == 14 {
        'E'
    } else {
        'F'
    }
}

/// The CSS-style code for a color: a hash sign followed by two uppercase
/// hexadecimal digits per channel.
pub open spec fn color_code(c: Rgb) -> Seq<char> {
    seq![
        '#',
        hex_digit((c.r / 16) as int),
        hex_digit((c.r % 16) as int),
        hex_digit((c.g / 16) as int),
        hex_digit((c.g % 16) as int),
        hex_digit((c.b / 16) as int),
        hex_digit((c.b % 16) as int),
    ]
}

/// The one-character string for a hexadecimal digit.
fn hex_str(d: u8) -> (r: &'static str)
    requires
        d < 16,
    ensures
        r@ == seq![hex_digit(d as int)],
{
    match d {
        0 => {
            proof {
                reveal_strlit("0");
            }
            assert("0"@ =~= seq![hex_digit(0)]);
            "0"
        },
        1 => {
            proof {
                reveal_strlit("1");
            }
            assert("1"@ =~= seq![hex_digit(1)]);
            "1"
        },
        2 => {
            proof {
                reveal_strlit("2");
            }
            assert("2"@ =~= seq![hex_digit(2)]);
            "2"
        },
        3 => {
            proof {
                reveal_strlit("3");
            }
            assert("3"@ =~= seq![hex_digit(3)]);
            "3"
        },
        4 => {
            proof {
                reveal_strlit("4");
            }
            assert("4"@ =~= seq![hex_digit(4)]);
            "4"
        },
        5 => {
            proof {
                reveal_strlit("5");
            }
            assert("5"@ =~= seq![hex_digit(5)]);
            "5"
        },
        6 => {
            proof {
                reveal_strlit("6");
            }
            assert("6"@ =~= seq![hex_digit(6)]);
            "6"
        },
        7 => {
            proof {
                reveal_strlit("7");
            }
            assert("7"@ =~= seq![hex_digit(7)]);
            "7"
        },
        8 => {
            proof {
                reveal_strlit("8");
            }
            assert("8"@ =~= seq![hex_digit(8)]);
            "8"
        },
        9 => {
            proof {
                reveal_strlit("9");
            }
            assert("9"@ =~= seq![hex_digit(9)]);
            "9"
        },
        10 => {
            proof {
                reveal_strlit("A");
            }
            assert("A"@ =~= seq![hex_digit(10)]);
            "A"
        },
        11 => {
            proof {
                reveal_strlit("B");
            }
            assert("B"@ =~= seq![hex_digit(11)]);
            "B"
        },
        12 => {
            proof {
                reveal_strlit("C");
            }
            assert("C"@ =~= seq![hex_digit(12)]);
            "C"
        },
        13 => {
            proof {
                reveal_strlit("D");
            }
            assert("D"@ =~= seq![hex_digit(13)]);
            "D"
        },
        14 => {
            proof {
                reveal_strlit("E");
            }
            assert("E"@ =~= seq![hex_digit(14)]);
            "E"
        },
        _ => {
            proof {
                reveal_strlit("F");
            }
            assert("F"@ =~= seq![hex_digit(15)]);
            "F"
        },
    }
}

/// Format a color as its CSS-style hexadecimal code, `#RRGGBB` in uppercase.
pub fn rgb(color: Rgb) -> (r: String)
    ensures
        r@ == color_code(color),
{
    let mut s = String::from_str("#");
    proof {
        reveal_strlit("#");
    }
    s.append(hex_str(color.r / 16));
    s.append(hex_str(color.r % 16));
    s.append(hex_str(color.g / 16));
    s.append(hex_str(color.g % 16));
    s.append(hex_str(color.b / 16));
    s.append(hex_str(color.b % 16));
    proof {
        assert(s@ =~= color_code(color));
    }
    s
}

/// A point or direction in the plane, in fixed-point units.
#[derive(Clone, Copy, PartialEq, Eq, Structural, Debug)]
pub struct Point2d {
    pub x: i64,
    pub y: i64,
}

/// Whether both coordinates are within the range the geometric operations
/// accept.
pub open spec fn in_bounds(p: Point2d) -> bool {
    &&& -COORD_LIMIT <= p.x <= COORD_LIMIT
    &&& -COORD_LIMIT <= p.y <= COORD_LIMIT
}

/// The integer square root of `x * x + y * y`: the magnitude of the vector
/// `(x, y)`, rounded down, in the same units.
pub open spec fn magnitude(x: int, y: int) -> int {
    isqrt_spec((x * x + y * y) as nat) as int
}

impl Point2d {
    /// Scale the vector `(x, y)` to magnitude one (`SCALE` units): each
    /// component becomes `v * SCALE / m` with `m` the vector's magnitude,
    /// rounded toward zero.  The zero vector has no direction and is
    /// excluded.
    pub fn normalize(x: i64, y: i64) -> (r: Point2d)
        requires
            !(x == 0 && y == 0),
            -2 * COORD_LIMIT <= x <= 2 * COORD_LIMIT,
            -2 * COORD_LIMIT <= y <= 2 * COORD_LIMIT,
        ensures
            r.x == tdiv(x * SCALE, magnitude(x as int, y as int)),
            r.y == tdiv(y * SCALE, magnitude(x as int, y as int)),
            -SCALE <= r.x <= SCALE,
            -SCALE <= r.y <= SCALE,
    {
        let xs: i128 = x as i128;
        let ys: i128 = y as i128;
        proof {
            assert(xs * xs + ys * ys < 0x4000_0000_0000_0000_0000_0000_0000_0000
                && xs * xs >= 0 && ys * ys >= 0 && xs * xs + ys * ys > 0) by (nonlinear_arith)
                requires
                    -4_000_000_000_000 <= xs <= 4_000_000_000_000,
                    -4_000_000_000_000 <= ys <= 4_000_000_000_000,
                    !(xs == 0 && ys == 0),
            ;
        }
        let sq: u128 = (xs * xs + ys * ys) as u128;
        let m: u128 = isqrt_u128(sq);
        proof {
            assert(m >= 1 && m < 0x8000_0000_0000_0000) by (nonlinear_arith)
                requires
                    sq >= 1,
                    m * m <= sq,
                    sq < (m + 1) * (m + 1),
                    sq < 0x4000_0000_0000_0000_0000_0000_0000_0000,
                    m >= 0,
            ;
            // The magnitude dominates each component, so each scaled
            // component fits in one `SCALE`.
            assert(xs <= m && -xs <= m && ys <= m && -ys <= m) by (nonlinear_arith)
                requires
                    xs * xs <= sq,
                    ys * ys <= sq,
                    sq < (m + 1) * (m + 1),
                    m >= 0,
            ;
            assert(-(SCALE * (m as int)) <= x * SCALE <= SCALE * (m as int)
                && -(SCALE * (m as int)) <= y * SCALE <= SCALE * (m as int)) by (nonlinear_arith)
                requires
                    -(m as int) <= x <= m as int,
                    -(m as int) <= y <= m as int,
                    SCALE == 1_000_000,
            ;
            lemma_tdiv_abs_upper(x * SCALE, m as int, SCALE as int);
            lemma_tdiv_abs_upper(y * SCALE, m as int, SCALE as int);
        }
        let rx: i128 = tdiv_i128(xs * (SCALE as i128), m as i128);
        let ry: i128 = tdiv_i128(ys * (SCALE as i128), m as i128);
        Point2d { x: rx as i64, y: ry as i64 }
    }
}

/// A line obstacle between two fixed endpoints; pure data, in caller order.
#[derive(Clone, Copy, PartialEq, Eq, Structural, Debug)]
pub struct Line {
    pub from: Point2d,
    pub to: Point2d,
    pub color: Rgb,
}

/// Whether both endpoints of a line are within the accepted range.
pub open spec fn line_in_bounds(l: Line) -> bool {
    in_bounds(l.from) && in_bounds(l.to)
}

impl Line {
    /// A line from `a` to `b`, endpoints kept in caller order.
    pub fn new(a: Point2d, b: Point2d, color: Rgb) -> (r: Box<Line>)
        ensures
            r.from == a,
            r.to == b,
            r.color == color,
    {
        Box::new(Line { from: a, to: b, color })
    }
}

/// A circle, described by its center and radius in whole world units.
#[derive(Clone, Copy, PartialEq, Eq, Structural, Debug)]
pub struct Circle {
    pub center_point: Point2d,
    pub radius: u8,
    pub color: Rgb,
}

impl Circle {
    /// A circle around `center` with the given radius.
    pub fn new(center: Point2d, radius: u8, color: Rgb) -> (r: Box<Circle>)
        ensures
            r.center_point == center,
            r.radius == radius,
            r.color == color,
    {
        Box::new(Circle { center_point: center, radius, color })
    }
}

/// An axis-aligned rectangle held as its top-left and bottom-right corners.
#[derive(Clone, Copy, PartialEq, Eq, Structural, Debug)]
pub struct CollisionRectangle {
    pub top_left: Point2d,
    pub bottom_right: Point2d,
}

/// The bounding rectangle of two arbitrary corner points, coordinates
/// sorted componentwise.
pub open spec fn rect_between(a: Point2d, b: Point2d) -> CollisionRectangle {
    CollisionRectangle {
        top_left: Point2d {
            x: if a.x <= b.x { a.x } else { b.x },
            y: if a.y <= b.y { a.y } else { b.y },
        },
        bottom_right: Point2d {
            x: if a.x >= b.x { a.x } else { b.x },
            y: if a.y >= b.y { a.y } else { b.y },
        },
    }
}

/// Whether two corner-normalized rectangles overlap: neither lies strictly
/// to one side of the other.
pub open spec fn collides(a: CollisionRectangle, b: CollisionRectangle) -> bool {
    &&& a.bottom_right.x >= b.top_left.x
    &&& a.top_left.x <= b.bottom_right.x
    &&& a.bottom_right.y >= b.top_left.y
    &&& a.top_left.y <= b.bottom_right.y
}

impl CollisionRectangle {
    /// The bounding rectangle of two arbitrary corner points: coordinates
    /// are sorted so that `top_left` is the componentwise minimum.
    pub fn new(a: Point2d, b: Point2d) -> (r: CollisionRectangle)
        ensures
            r == rect_between(a, b),
            r.top_left.x <= r.bottom_right.x,
            r.top_left.y <= r.bottom_right.y,
    {
        let tlx = if a.x <= b.x { a.x } else { b.x };
        let tly = if a.y <= b.y { a.y } else { b.y };
        let brx = if a.x >= b.x { a.x } else { b.x };
        let bry = if a.y >= b.y { a.y } else { b.y };
        CollisionRectangle {
            top_left: Point2d { x: tlx, y: tly },
            bottom_right: Point2d { x: brx, y: bry },
        }
    }

    /// Whether this rectangle overlaps `other`, boundaries included.
    pub fn collides_with(&self, other: CollisionRectangle) -> (r: bool)
        ensures
            r == collides(*self, other),
    {
        // To the left of the other.
        if self.bottom_right.x < other.top_left.x {
            return false;
        }
        // To the right of the other.
        if self.top_left.x > other.bottom_right.x {
            return false;
        }
        // Above the other.
        if self.bottom_right.y < other.top_left.y {
            return false;
        }
        if self.top_left.y > other.bottom_right.y {
            return false;
        }
        true
    }
}

} // verus!
