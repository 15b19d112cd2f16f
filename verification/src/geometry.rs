//! Plain value types shared by the renderers: rectangles, points, triangles
//! and colours.

use vstd::prelude::*;

verus! {

/// Source-pixel bounding box of one sprite frame.
#[derive(Clone, Copy, Debug, PartialEq, Eq, Structural)]
pub struct Rect {
    pub x: u16,
    pub y: u16,
    pub w: u16,
    pub h: u16,
}

impl Rect {
    /// Builds a rectangle from its corner and extent.
    pub fn new(x: u16, y: u16, w: u16, h: u16) -> (r: Rect)
        ensures
            r == (Rect { x, y, w, h }),
    {
        Rect { x, y, w, h }
    }
}

/// A position on the drawing surface, in whole pixels.
#[derive(Clone, Copy, Debug, PartialEq, Eq, Structural)]
pub struct Point {
    pub x: i32,
    pub y: i32,
}

/// The coordinate halfway between `a` and `b`, rounded towards negative
/// infinity.
pub open spec fn spec_mid(a: int, b: int) -> int {
    (a + b) / 2
}

/// The point halfway between `p` and `q`, each coordinate rounded towards
/// negative infinity.
pub open spec fn spec_midpoint(p: Point, q: Point) -> Point {
    Point { x: spec_mid(p.x as int, q.x as int) as i32, y: spec_mid(p.y as int, q.y as int) as i32 }
}

/// Halfway between two coordinates, without overflow.
fn mid(a: i32, b: i32) -> (m: i32)
    ensures
        m == spec_mid(a as int, b as int),
{
    let sum: i64 = a as i64 + b as i64;
    let half: i64 = if sum >= 0 {
        sum / 2
    } else {
        -((1 - sum) / 2)
    };
    half as i32
}

impl Point {
    /// Builds a point from its coordinates.
    pub fn new(x: i32, y: i32) -> (p: Point)
        ensures
            p == (Point { x, y }),
    {
        Point { x, y }
    }

    /// The midpoint of the segment from `self` to `other`.
    pub fn midpoint(self, other: Point) -> (m: Point)
        ensures
            m == spec_midpoint(self, other),
    {
        Point { x: mid(self.x, other.x), y: mid(self.y, other.y) }
    }
}

/// Three corners, in drawing order.
#[derive(Clone, Copy, Debug, PartialEq, Eq, Structural)]
pub struct Triangle {
    pub a: Point,
    pub b: Point,
    pub c: Point,
}

impl Triangle {
    /// Builds a triangle from its corners.
    pub fn new(a: Point, b: Point, c: Point) -> (t: Triangle)
        ensures
            t == (Triangle { a, b, c }),
    {
        Triangle { a, b, c }
    }
}

/// An opaque RGB colour.
#[derive(Clone, Copy, Debug, PartialEq, Eq, Structural)]
pub struct Color {
    pub r: u8,
    pub g: u8,
    pub b: u8,
}

impl Color {
    /// Builds a colour from its channels.
    pub fn new(r: u8, g: u8, b: u8) -> (c: Color)
        ensures
            c == (Color { r, g, b }),
    {
        Color { r, g, b }
    }
}

} // verus!
