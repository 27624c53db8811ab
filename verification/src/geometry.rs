//! Plain geometric values and the hit tests that collision detection rests on.
//!
//! All coordinates are integers, so areas are compared as doubled areas: the
//! absolute value of a cross product, computed in integers wide enough for
//! any coordinates. The comparison of a triangle's area with the sum of the
//! three sub-triangle areas is therefore an exact equality: nothing is
//! rounded and no tolerance is applied.

use vstd::prelude::*;

verus! {

/// A point in pixel space.
#[derive(Clone, Copy, Debug, PartialEq, Eq, Structural)]
pub struct Point {
    pub x: i32,
    pub y: i32,
}

/// An axis-aligned rectangle: its top-left corner and its size.
#[derive(Clone, Copy, Debug, PartialEq, Eq, Structural)]
pub struct Rect {
    pub x: i32,
    pub y: i32,
    pub width: u32,
    pub height: u32,
}

/// A colour with its opacity.
#[derive(Clone, Copy, Debug, PartialEq, Eq, Structural)]
pub struct Color {
    pub r: u8,
    pub g: u8,
    pub b: u8,
    pub a: u8,
}

impl Point {
    /// The point `(x, y)`.
    pub fn new(x: i32, y: i32) -> (p: Point)
        ensures
            p.x == x,
            p.y == y,
    {
        Point { x, y }
    }
}

impl Rect {
    /// The rectangle with its top-left corner at `(x, y)`.
    pub fn new(x: i32, y: i32, width: u32, height: u32) -> (r: Rect)
        ensures
            r.x == x,
            r.y == y,
            r.width == width,
            r.height == height,
    {
        Rect { x, y, width, height }
    }

    /// Whether `(px, py)` lies in the rectangle, its four edges included.
    pub open spec fn contains(self, px: int, py: int) -> bool {
        &&& self.x <= px <= self.x + self.width
        &&& self.y <= py <= self.y + self.height
    }

    /// Inclusive bounds check on both axes.
    pub fn contains_point(&self, px: i32, py: i32) -> (r: bool)
        ensures
            r == self.contains(px as int, py as int),
    {
        let right: i64 = self.x as i64 + self.width as i64;
        let bottom: i64 = self.y as i64 + self.height as i64;
        self.x <= px && right >= px as i64 && self.y <= py && bottom >= py as i64
    }
}

impl Color {
    /// The opaque colour with these shares of red, green and blue.
    pub open spec fn spec_rgb(r: u8, g: u8, b: u8) -> Color {
        Color { r, g, b, a: 255 }
    }

    /// An opaque colour.
    #[verifier::when_used_as_spec(spec_rgb)]
    pub fn rgb(r: u8, g: u8, b: u8) -> (c: Color)
        ensures
            c == Color::spec_rgb(r, g, b),
    {
        Color { r, g, b, a: 255 }
    }

    /// White.
    pub open spec fn spec_white() -> Color {
        Color::spec_rgb(255, 255, 255)
    }

    #[verifier::when_used_as_spec(spec_white)]
    pub fn white() -> (c: Color)
        ensures
            c == Color::spec_white(),
    {
        Color::rgb(255, 255, 255)
    }

    /// Black.
    pub open spec fn spec_black() -> Color {
        Color::spec_rgb(0, 0, 0)
    }

    #[verifier::when_used_as_spec(spec_black)]
    pub fn black() -> (c: Color)
        ensures
            c == Color::spec_black(),
    {
        Color::rgb(0, 0, 0)
    }

    /// Grey: half of every share.
    pub open spec fn spec_grey() -> Color {
        Color::spec_rgb(128, 128, 128)
    }

    #[verifier::when_used_as_spec(spec_grey)]
    pub fn grey() -> (c: Color)
        ensures
            c == Color::spec_grey(),
    {
        Color::rgb(128, 128, 128)
    }

    /// Red.
    pub open spec fn spec_red() -> Color {
        Color::spec_rgb(255, 0, 0)
    }

    #[verifier::when_used_as_spec(spec_red)]
    pub fn red() -> (c: Color)
        ensures
            c == Color::spec_red(),
    {
        Color::rgb(255, 0, 0)
    }

    /// Blue.
    pub open spec fn spec_blue() -> Color {
        Color::spec_rgb(0, 0, 255)
    }

    #[verifier::when_used_as_spec(spec_blue)]
    pub fn blue() -> (c: Color)
        ensures
            c == Color::spec_blue(),
    {
        Color::rgb(0, 0, 255)
    }
}

/// The 2D cross product of `p2 - p1` and `p3 - p1`.
pub open spec fn cross(x1: int, y1: int, x2: int, y2: int, x3: int, y3: int) -> int {
    (x2 - x1) * (y3 - y1) - (y2 - y1) * (x3 - x1)
}

/// Twice the area of the triangle `p1 p2 p3`: the absolute value of the cross
/// product of two of its sides.
pub open spec fn doubled_area(x1: int, y1: int, x2: int, y2: int, x3: int, y3: int) -> int {
    let c = cross(x1, y1, x2, y2, x3, y3);
    if c < 0 {
        -c
    } else {
        c
    }
}

/// The least of three numbers.
pub open spec fn min3(a: int, b: int, c: int) -> int {
    if a <= b && a <= c {
        a
    } else if b <= c {
        b
    } else {
        c
    }
}

/// The greatest of three numbers.
pub open spec fn max3(a: int, b: int, c: int) -> int {
    if a >= b && a >= c {
        a
    } else if b >= c {
        b
    } else {
        c
    }
}

/// Whether `(x, y)` counts as inside the triangle whose vertices are
/// `(xs[i], ys[i])`: the three triangles that the point spans with each pair
/// of vertices fill the triangle exactly, and the point lies strictly inside
/// the triangle's bounding box. A point on an edge that touches the bounding
/// box is therefore outside.
pub open spec fn point_in_triangle(xs: Seq<i16>, ys: Seq<i16>, x: int, y: int) -> bool {
    &&& doubled_area(xs[0] as int, ys[0] as int, xs[1] as int, ys[1] as int, xs[2] as int, ys[2] as int)
        == doubled_area(x, y, xs[1] as int, ys[1] as int, xs[2] as int, ys[2] as int)
        + doubled_area(xs[0] as int, ys[0] as int, x, y, xs[2] as int, ys[2] as int)
        + doubled_area(xs[0] as int, ys[0] as int, xs[1] as int, ys[1] as int, x, y)
    &&& min3(xs[0] as int, xs[1] as int, xs[2] as int) < x < max3(
        xs[0] as int,
        xs[1] as int,
        xs[2] as int,
    )
    &&& min3(ys[0] as int, ys[1] as int, ys[2] as int) < y < max3(
        ys[0] as int,
        ys[1] as int,
        ys[2] as int,
    )
}

/// The signed areas that a point spans with each pair of a triangle's
/// vertices add up to the signed area of the triangle, wherever the point
/// lies.
pub proof fn lemma_cross_splits(
    x1: int,
    y1: int,
    x2: int,
    y2: int,
    x3: int,
    y3: int,
    x: int,
    y: int,
)
    ensures
        cross(x1, y1, x2, y2, x3, y3) == cross(x, y, x2, y2, x3, y3) + cross(x1, y1, x, y, x3, y3)
            + cross(x1, y1, x2, y2, x, y),
{
    assert(cross(x1, y1, x2, y2, x3, y3) == cross(x, y, x2, y2, x3, y3) + cross(
        x1,
        y1,
        x,
        y,
        x3,
        y3,
    ) + cross(x1, y1, x2, y2, x, y)) by (nonlinear_arith);
}

/// The area test of `point_in_triangle` holds exactly when the point lies on
/// the same side of all three edges, the edges themselves included: the
/// three cross products are all at least zero or all at most zero.
pub proof fn lemma_area_test_means_same_side(
    x1: int,
    y1: int,
    x2: int,
    y2: int,
    x3: int,
    y3: int,
    x: int,
    y: int,
)
    ensures
        (doubled_area(x1, y1, x2, y2, x3, y3) == doubled_area(x, y, x2, y2, x3, y3) + doubled_area(
            x1,
            y1,
            x,
            y,
            x3,
            y3,
        ) + doubled_area(x1, y1, x2, y2, x, y)) <==> ({
            let a = cross(x, y, x2, y2, x3, y3);
            let b = cross(x1, y1, x, y, x3, y3);
            let c = cross(x1, y1, x2, y2, x, y);
            (a >= 0 && b >= 0 && c >= 0) || (a <= 0 && b <= 0 && c <= 0)
        }),
{
    lemma_cross_splits(x1, y1, x2, y2, x3, y3, x, y);
}

proof fn lemma_product_bound(a: int, b: int)
    requires
        -0x1_0000_0000 <= a <= 0x1_0000_0000,
        -0x1_0000_0000 <= b <= 0x1_0000_0000,
    ensures
        -0x1_0000_0000_0000_0000 <= a * b <= 0x1_0000_0000_0000_0000,
{
    assert(-0x1_0000_0000_0000_0000 <= a * b <= 0x1_0000_0000_0000_0000) by (nonlinear_arith)
        requires
            -0x1_0000_0000 <= a <= 0x1_0000_0000,
            -0x1_0000_0000 <= b <= 0x1_0000_0000,
    ;
}

/// Twice the area of a triangle, computed without rounding.
pub fn doubled_triangle_area(x1: i32, y1: i32, x2: i32, y2: i32, x3: i32, y3: i32) -> (r: i128)
    ensures
        r == doubled_area(x1 as int, y1 as int, x2 as int, y2 as int, x3 as int, y3 as int),
        0 <= r <= 0x2_0000_0000_0000_0000,
{
    let abx: i128 = x2 as i128 - x1 as i128;
    let aby: i128 = y2 as i128 - y1 as i128;
    let acx: i128 = x3 as i128 - x1 as i128;
    let acy: i128 = y3 as i128 - y1 as i128;
    proof {
        lemma_product_bound(abx as int, acy as int);
        lemma_product_bound(aby as int, acx as int);
    }
    let c: i128 = abx * acy - aby * acx;
    if c < 0 {
        -c
    } else {
        c
    }
}

fn least_of(a: i16, b: i16, c: i16) -> (r: i16)
    ensures
        r == min3(a as int, b as int, c as int),
{
    if a <= b && a <= c {
        a
    } else if b <= c {
        b
    } else {
        c
    }
}

fn greatest_of(a: i16, b: i16, c: i16) -> (r: i16)
    ensures
        r == max3(a as int, b as int, c as int),
{
    if a >= b && a >= c {
        a
    } else if b >= c {
        b
    } else {
        c
    }
}

/// Tests a point against a triangle given by its vertices' coordinates.
pub fn is_point_within_triangle(triangle_x: &[i16; 3], triangle_y: &[i16; 3], x: i32, y: i32) -> (r:
    bool)
    ensures
        r == point_in_triangle(triangle_x@, triangle_y@, x as int, y as int),
{
    let x0: i32 = triangle_x[0] as i32;
    let x1: i32 = triangle_x[1] as i32;
    let x2: i32 = triangle_x[2] as i32;
    let y0: i32 = triangle_y[0] as i32;
    let y1: i32 = triangle_y[1] as i32;
    let y2: i32 = triangle_y[2] as i32;

    let a: i128 = doubled_triangle_area(x0, y0, x1, y1, x2, y2);
    let a1: i128 = doubled_triangle_area(x, y, x1, y1, x2, y2);
    let a2: i128 = doubled_triangle_area(x0, y0, x, y, x2, y2);
    let a3: i128 = doubled_triangle_area(x0, y0, x1, y1, x, y);

    let min_x: i32 = least_of(triangle_x[0], triangle_x[1], triangle_x[2]) as i32;
    let max_x: i32 = greatest_of(triangle_x[0], triangle_x[1], triangle_x[2]) as i32;
    let min_y: i32 = least_of(triangle_y[0], triangle_y[1], triangle_y[2]) as i32;
    let max_y: i32 = greatest_of(triangle_y[0], triangle_y[1], triangle_y[2]) as i32;

    a == a1 + a2 + a3 && x > min_x && x < max_x && y > min_y && y < max_y
}

} // verus!
