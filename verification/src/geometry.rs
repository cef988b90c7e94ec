//! The full-screen quad: four corners of clip space and the two triangles
//! that the render pass draws over them.

use vstd::prelude::*;
use crate::bytes::{is_memory_of_u16s, memory_of_u16s};

verus! {

/// Vertices of the full-screen quad.
pub const QUAD_VERTEX_COUNT: u16 = 4;

/// Indices of the full-screen quad: two triangles of three.
pub const QUAD_INDEX_COUNT: u32 = 6;

/// One vertex of the quad: a position in clip space and the texture
/// coordinate that is sampled there.
///
/// Every coordinate of the quad is -1, 0 or 1. They are held as whole
/// numbers, which the caller widens to the vertex buffer's single-precision
/// numbers without loss.
#[derive(Clone, Copy, Debug, PartialEq, Eq, Structural)]
pub struct Vertex {
    /// The position in clip space.
    pub x: i8,
    pub y: i8,
    pub z: i8,
    /// The coordinate in the texture, whose origin is its upper left corner.
    pub u: i8,
    pub v: i8,
}

/// The quad's corners in the order of the vertex buffer: upper left, lower
/// left, lower right, upper right.
pub open spec fn quad_vertex_list() -> Seq<Vertex> {
    seq![
        Vertex { x: -1i8, y: 1, z: 0, u: 0, v: 0 },
        Vertex { x: -1i8, y: -1i8, z: 0, u: 0, v: 1 },
        Vertex { x: 1, y: -1i8, z: 0, u: 1, v: 1 },
        Vertex { x: 1, y: 1, z: 0, u: 1, v: 0 },
    ]
}

/// The quad's index list: the triangles `0, 1, 2` and `2, 3, 0`, which share
/// the edge between vertices 0 and 2.
pub open spec fn quad_index_list() -> Seq<u16> {
    seq![0u16, 1u16, 2u16, 2u16, 3u16, 0u16]
}

/// The vertices of the full-screen quad.
pub fn quad_vertices() -> (vertices: [Vertex; 4])
    ensures
        vertices@ == quad_vertex_list(),
        vertices@.len() == QUAD_VERTEX_COUNT,
{
    let vertices: [Vertex; 4] = [
        Vertex { x: -1, y: 1, z: 0, u: 0, v: 0 },
        Vertex { x: -1, y: -1, z: 0, u: 0, v: 1 },
        Vertex { x: 1, y: -1, z: 0, u: 1, v: 1 },
        Vertex { x: 1, y: 1, z: 0, u: 1, v: 0 },
    ];
    assert(vertices@ =~= quad_vertex_list());
    vertices
}

/// The index list of the full-screen quad. Every index names a vertex.
pub fn quad_indices() -> (indices: [u16; 6])
    ensures
        indices@ == quad_index_list(),
        indices@.len() == QUAD_INDEX_COUNT,
        forall|i: int| 0 <= i < indices@.len() ==> indices@[i] < QUAD_VERTEX_COUNT,
{
    let indices: [u16; 6] = [0, 1, 2, 2, 3, 0];
    assert(indices@ =~= quad_index_list());
    indices
}

/// The contents of the index buffer: the quad's indices as 16-bit words in
/// the byte order of the host, twelve bytes in all.
pub fn quad_index_bytes() -> (bytes: Vec<u8>)
    ensures
        bytes@.len() == 12,
        is_memory_of_u16s(bytes@, quad_index_list()),
{
    let indices = quad_indices();
    memory_of_u16s(indices.as_slice())
}

/// The corner that the `k`-th index of triangle `t` names.
pub open spec fn corner(t: int, k: int) -> Vertex {
    quad_vertex_list()[quad_index_list()[3 * t + k] as int]
}

/// On which side of the edge from `a` to `b` the point `(px / n, py / n)`
/// lies, seen from above the xy-plane: positive to the left, negative to the
/// right, zero on the line through both. The value is the cross product of
/// the edge and the way from `a` to the point, scaled by `n`.
pub open spec fn side(a: Vertex, b: Vertex, px: int, py: int, n: int) -> int {
    (b.x - a.x) * (py - n * a.y) - (b.y - a.y) * (px - n * a.x)
}

/// Whether triangle `t` of the quad holds the point `(px / n, py / n)`,
/// its edges included.
pub open spec fn triangle_holds(t: int, px: int, py: int, n: int) -> bool {
    &&& side(corner(t, 0), corner(t, 1), px, py, n) >= 0
    &&& side(corner(t, 1), corner(t, 2), px, py, n) >= 0
    &&& side(corner(t, 2), corner(t, 0), px, py, n) >= 0
}

/// The side function of each of the quad's six edges, written out: the first
/// triangle is bounded by the left edge, the lower edge and the diagonal,
/// the second by the right edge, the upper edge and the diagonal.
proof fn lemma_quad_edges(px: int, py: int, n: int)
    ensures
        side(corner(0, 0), corner(0, 1), px, py, n) == 2 * (px + n),
        side(corner(0, 1), corner(0, 2), px, py, n) == 2 * (py + n),
        side(corner(0, 2), corner(0, 0), px, py, n) == -2 * (px + py),
        side(corner(1, 0), corner(1, 1), px, py, n) == 2 * (n - px),
        side(corner(1, 1), corner(1, 2), px, py, n) == 2 * (n - py),
        side(corner(1, 2), corner(1, 0), px, py, n) == 2 * (px + py),
{
    let upper_left = quad_vertex_list()[0];
    let lower_left = quad_vertex_list()[1];
    let lower_right = quad_vertex_list()[2];
    let upper_right = quad_vertex_list()[3];
    assert(corner(0, 0) == upper_left && corner(0, 1) == lower_left && corner(0, 2)
        == lower_right);
    assert(corner(1, 0) == lower_right && corner(1, 1) == upper_right && corner(1, 2)
        == upper_left);
    assert(side(upper_left, lower_left, px, py, n) == 2 * (px + n)) by (nonlinear_arith)
        requires
            upper_left.x == -1 && upper_left.y == 1,
            lower_left.x == -1 && lower_left.y == -1,
    ;
    assert(side(lower_left, lower_right, px, py, n) == 2 * (py + n)) by (nonlinear_arith)
        requires
            lower_left.x == -1 && lower_left.y == -1,
            lower_right.x == 1 && lower_right.y == -1,
    ;
    assert(side(lower_right, upper_left, px, py, n) == -2 * (px + py)) by (nonlinear_arith)
        requires
            lower_right.x == 1 && lower_right.y == -1,
            upper_left.x == -1 && upper_left.y == 1,
    ;
    assert(side(lower_right, upper_right, px, py, n) == 2 * (n - px)) by (nonlinear_arith)
        requires
            lower_right.x == 1 && lower_right.y == -1,
            upper_right.x == 1 && upper_right.y == 1,
    ;
    assert(side(upper_right, upper_left, px, py, n) == 2 * (n - py)) by (nonlinear_arith)
        requires
            upper_right.x == 1 && upper_right.y == 1,
            upper_left.x == -1 && upper_left.y == 1,
    ;
    assert(side(upper_left, lower_right, px, py, n) == 2 * (px + py)) by (nonlinear_arith)
        requires
            upper_left.x == -1 && upper_left.y == 1,
            lower_right.x == 1 && lower_right.y == -1,
    ;
}

/// Both triangles of the quad wind counter-clockwise, so that neither is
/// culled as a back face: the third corner lies strictly to the left of the
/// edge from the first to the second.
pub proof fn lemma_quad_faces_front(t: int)
    requires
        0 <= t < 2,
    ensures
        side(corner(t, 0), corner(t, 1), corner(t, 2).x as int, corner(t, 2).y as int, 1) > 0,
{
    lemma_quad_edges(corner(t, 2).x as int, corner(t, 2).y as int, 1);
}

/// The two triangles cover the surface: every point of clip space with
/// rational coordinates, `(px / n, py / n)` with both between -1 and 1, lies
/// in one of them.
pub proof fn lemma_quad_covers_surface(px: int, py: int, n: int)
    requires
        n > 0,
        -n <= px <= n,
        -n <= py <= n,
    ensures
        triangle_holds(0, px, py, n) || triangle_holds(1, px, py, n),
{
    lemma_quad_edges(px, py, n);
}

/// The quad stays within the surface: a point that a triangle holds has
/// both coordinates between -1 and 1.
pub proof fn lemma_quad_stays_within_surface(t: int, px: int, py: int, n: int)
    requires
        0 <= t < 2,
        n > 0,
        triangle_holds(t, px, py, n),
    ensures
        -n <= px <= n,
        -n <= py <= n,
{
    lemma_quad_edges(px, py, n);
}

/// The texture is laid over the quad upright and whole: at each corner,
/// `u` runs from 0 at the left edge to 1 at the right, and `v` from 0 at the
/// upper edge to 1 at the lower.
pub proof fn lemma_quad_texture_upright(i: int)
    requires
        0 <= i < QUAD_VERTEX_COUNT,
    ensures
        2 * quad_vertex_list()[i].u == quad_vertex_list()[i].x + 1,
        2 * quad_vertex_list()[i].v == 1 - quad_vertex_list()[i].y,
        quad_vertex_list()[i].z == 0,
{
}

} // verus!
