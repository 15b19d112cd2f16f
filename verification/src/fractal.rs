//! The recursively subdivided triangle.
//!
//! At depth 0 the triangle itself is filled. At any greater depth the three
//! corner triangles, each spanned by one corner and the midpoints of its two
//! edges, are rendered one level lower. The colour handed in is used at
//! depth 0 only: below a subdivision at depth `d` every triangle takes the
//! palette colour of `d`.

use vstd::prelude::*;
use vstd::arithmetic::power::pow;
use crate::geometry::{Color, Point, Triangle, spec_midpoint};
use crate::surface::{DrawCommand, Surface};

verus! {

/// The deepest subdivision that [`render`] accepts.
pub const MAX_DEPTH: u8 = 15;

/// The colour of the triangles below a subdivision at `depth`.
pub open spec fn spec_palette(depth: nat) -> Color {
    if depth % 3 == 0 {
        Color { r: 0, g: 255, b: 0 }
    } else if depth % 3 == 1 {
        Color { r: 255, g: 0, b: 0 }
    } else {
        Color { r: 0, g: 0, b: 255 }
    }
}

/// The colour of the triangles below a subdivision at `depth`.
pub fn palette(depth: u8) -> (color: Color)
    ensures
        color == spec_palette(depth as nat),
{
    let slot: u8 = depth % 3;
    if slot == 0 {
        Color { r: 0, g: 255, b: 0 }
    } else if slot == 1 {
        Color { r: 255, g: 0, b: 0 }
    } else {
        Color { r: 0, g: 0, b: 255 }
    }
}

/// The corner triangle at corner `a`.
pub open spec fn spec_corner_a(t: Triangle) -> Triangle {
    Triangle { a: t.a, b: spec_midpoint(t.a, t.b), c: spec_midpoint(t.a, t.c) }
}

/// The corner triangle at corner `b`.
pub open spec fn spec_corner_b(t: Triangle) -> Triangle {
    Triangle { a: spec_midpoint(t.a, t.b), b: t.b, c: spec_midpoint(t.b, t.c) }
}

/// The corner triangle at corner `c`.
pub open spec fn spec_corner_c(t: Triangle) -> Triangle {
    Triangle { a: spec_midpoint(t.a, t.c), b: spec_midpoint(t.b, t.c), c: t.c }
}

/// The fills that rendering `triangle` at `depth` issues, in order.
pub open spec fn spec_leaves(triangle: Triangle, color: Color, depth: nat) -> Seq<DrawCommand>
    decreases depth,
{
    if depth == 0 {
        seq![DrawCommand::FillTriangle { triangle, color }]
    } else {
        let below = (depth - 1) as nat;
        let shade = spec_palette(depth);
        spec_leaves(spec_corner_a(triangle), shade, below) + spec_leaves(
            spec_corner_b(triangle),
            shade,
            below,
        ) + spec_leaves(spec_corner_c(triangle), shade, below)
    }
}

/// Rendering at depth `d` issues exactly `3^d` fills, and every one of them
/// fills a triangle.
pub proof fn lemma_leaf_count(triangle: Triangle, color: Color, depth: nat)
    ensures
        spec_leaves(triangle, color, depth).len() == pow(3, depth),
        forall|i: int|
            0 <= i < spec_leaves(triangle, color, depth).len() ==> (#[trigger] spec_leaves(
                triangle,
                color,
                depth,
            )[i]) is FillTriangle,
    decreases depth,
{
    reveal(pow);
    if depth > 0 {
        let below = (depth - 1) as nat;
        let shade = spec_palette(depth);
        lemma_leaf_count(spec_corner_a(triangle), shade, below);
        lemma_leaf_count(spec_corner_b(triangle), shade, below);
        lemma_leaf_count(spec_corner_c(triangle), shade, below);
    }
}

/// Draws the fractal of `triangle` on `surface`: the triangle itself at
/// depth 0, its three corner triangles one level lower otherwise.
pub fn render(surface: &mut Surface, triangle: Triangle, color: Color, depth: u8)
    requires
        depth <= MAX_DEPTH,
    ensures
        final(surface)@ == old(surface)@ + spec_leaves(triangle, color, depth as nat),
        final(surface)@.len() == old(surface)@.len() + pow(3, depth as nat),
    decreases depth,
{
    proof {
        lemma_leaf_count(triangle, color, depth as nat);
    }
    if depth == 0 {
        surface.fill_triangle(triangle, color);
        assert(final(surface)@ == old(surface)@ + spec_leaves(triangle, color, 0));
    } else {
        let ab: Point = triangle.a.midpoint(triangle.b);
        let ac: Point = triangle.a.midpoint(triangle.c);
        let bc: Point = triangle.b.midpoint(triangle.c);
        let shade: Color = palette(depth);
        render(surface, Triangle { a: triangle.a, b: ab, c: ac }, shade, depth - 1);
        render(surface, Triangle { a: ab, b: triangle.b, c: bc }, shade, depth - 1);
        render(surface, Triangle { a: ac, b: bc, c: triangle.c }, shade, depth - 1);
    }
}

} // verus!
