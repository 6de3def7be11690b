//! Triangle indices.
//!
//! The vertex buffer of a chunk holds eight vertices per cube. The index buffer
//! names, for every cube, the 36 vertices of its twelve triangles.

use crate::byteops::{pack_words, u32vec_to_u8vec};
use crate::world::{
    corner_delta, cube_count, lemma_cube_count_bound, vertex_stream, Block, Chunk, SIZE,
};
use vstd::prelude::*;

verus! {

/// Triangle indices of one cube: six faces of two triangles each.
pub const CUBE_INDICES: usize = 36;

/// The corners that make up the twelve triangles of a cube, three per
/// triangle, two triangles per face, in the face order down, up, front, back,
/// left, right. All twelve triangles are wound the same way.
pub open spec fn offset_template() -> Seq<u32> {
    seq![
        0, 3, 1, 1, 3, 2,
        4, 5, 6, 4, 6, 7,
        0, 1, 5, 0, 5, 4,
        2, 3, 7, 2, 7, 6,
        0, 7, 3, 0, 4, 7,
        1, 2, 6, 1, 6, 5,
    ]
}

/// The triangle indices of a cube whose first vertex occupies slot `base` of
/// the vertex buffer.
pub open spec fn cube_indices(base: int) -> Seq<u32> {
    Seq::new(36, |k: int| (base + offset_template()[k]) as u32)
}

/// The triangle indices of the first `cubes` cubes of a vertex buffer: index
/// `36 * i + k` is corner `offset_template()[k]` of cube `i`, whose vertices
/// start at slot `8 * i`.
pub open spec fn index_words(cubes: int) -> Seq<u32> {
    Seq::new((36 * cubes) as nat, |j: int| (8 * (j / 36) + offset_template()[j % 36]) as u32)
}

/// The unit normal that points out of the cube through face `f`, faces counted
/// in the template's order.
pub open spec fn face_normal(f: int) -> (int, int, int) {
    if f == 0 {
        (0, -1, 0)
    } else if f == 1 {
        (0, 1, 0)
    } else if f == 2 {
        (0, 0, -1)
    } else if f == 3 {
        (0, 0, 1)
    } else if f == 4 {
        (-1, 0, 0)
    } else {
        (1, 0, 0)
    }
}

/// Whether corner `k` lies on face `f`.
pub open spec fn on_face(k: int, f: int) -> bool {
    let d = corner_delta(k);
    if f == 0 {
        d.1 == 0
    } else if f == 1 {
        d.1 == 1
    } else if f == 2 {
        d.2 == 0
    } else if f == 3 {
        d.2 == 1
    } else if f == 4 {
        d.0 == 0
    } else {
        d.0 == 1
    }
}

/// Whether one of the two triangles of face `f` has corner `k`.
pub open spec fn face_uses(f: int, k: int) -> bool {
    let t = offset_template();
    t[6 * f] == k || t[6 * f + 1] == k || t[6 * f + 2] == k || t[6 * f + 3] == k || t[6 * f + 4]
        == k || t[6 * f + 5] == k
}

/// The cross product of two vectors.
pub open spec fn cross(u: (int, int, int), v: (int, int, int)) -> (int, int, int) {
    (u.1 * v.2 - u.2 * v.1, u.2 * v.0 - u.0 * v.2, u.0 * v.1 - u.1 * v.0)
}

/// The edge of triangle `t` that leaves its first corner for corner `end`, the
/// second or the third.
pub open spec fn triangle_edge(t: int, end: int) -> (int, int, int) {
    let a = corner_delta(offset_template()[3 * t] as int);
    let b = corner_delta(offset_template()[3 * t + end] as int);
    (b.0 - a.0, b.1 - a.1, b.2 - a.2)
}

/// The cross product of the two edges that leave the first corner of triangle
/// `t`: the edge to its second corner, then the edge to its third.
pub open spec fn triangle_turn(t: int) -> (int, int, int) {
    cross(triangle_edge(t, 1), triangle_edge(t, 2))
}

/// Every entry of the template names one of the eight corners.
pub proof fn lemma_template_names_corners()
    ensures
        offset_template().len() == 36,
        forall|k: int| 0 <= k < 36 ==> offset_template()[k] < 8,
{
}

/// The three corners of every triangle lie on the triangle's face, and all
/// twelve triangles turn the same way: the cross product of the edges from the
/// first corner to the second and to the third is the unit normal that points
/// into the cube through that face.
pub proof fn lemma_winding(t: int)
    requires
        0 <= t < 12,
    ensures
        on_face(offset_template()[3 * t] as int, t / 2),
        on_face(offset_template()[3 * t + 1] as int, t / 2),
        on_face(offset_template()[3 * t + 2] as int, t / 2),
        triangle_turn(t) == (-face_normal(t / 2).0, -face_normal(t / 2).1, -face_normal(t / 2).2),
{
    if t == 0 {
        assert(cross((0int, 0int, 1int), (1int, 0int, 0int)) == (0int, 1int, 0int)) by (nonlinear_arith);
    } else if t == 1 {
        assert(cross((-1int, 0int, 1int), (0int, 0int, 1int)) == (0int, 1int, 0int)) by (nonlinear_arith);
    } else if t == 2 {
        assert(cross((1int, 0int, 0int), (1int, 0int, 1int)) == (0int, -1int, 0int)) by (nonlinear_arith);
    } else if t == 3 {
        assert(cross((1int, 0int, 1int), (0int, 0int, 1int)) == (0int, -1int, 0int)) by (nonlinear_arith);
    } else if t == 4 {
        assert(cross((1int, 0int, 0int), (1int, 1int, 0int)) == (0int, 0int, 1int)) by (nonlinear_arith);
    } else if t == 5 {
        assert(cross((1int, 1int, 0int), (0int, 1int, 0int)) == (0int, 0int, 1int)) by (nonlinear_arith);
    } else if t == 6 {
        assert(cross((-1int, 0int, 0int), (-1int, 1int, 0int)) == (0int, 0int, -1int)) by (nonlinear_arith);
    } else if t == 7 {
        assert(cross((-1int, 1int, 0int), (0int, 1int, 0int)) == (0int, 0int, -1int)) by (nonlinear_arith);
    } else if t == 8 {
        assert(cross((0int, 1int, 1int), (0int, 0int, 1int)) == (1int, 0int, 0int)) by (nonlinear_arith);
    } else if t == 9 {
        assert(cross((0int, 1int, 0int), (0int, 1int, 1int)) == (1int, 0int, 0int)) by (nonlinear_arith);
    } else if t == 10 {
        assert(cross((0int, 0int, 1int), (0int, 1int, 1int)) == (-1int, 0int, 0int)) by (nonlinear_arith);
    } else {
        assert(cross((0int, 1int, 1int), (0int, 1int, 0int)) == (-1int, 0int, 0int)) by (nonlinear_arith);
    }
}

/// The two triangles of a face use exactly the corners that lie on it.
pub proof fn lemma_faces_covered(f: int, k: int)
    requires
        0 <= f < 6,
        0 <= k < 8,
    ensures
        face_uses(f, k) == on_face(k, f),
{
}

/// Every triangle index of a chunk names a vertex of that chunk: the indices of
/// cube `i` lie in the eight slots that start at `8 * i`, and so all of them lie
/// below the number of vertices, `8 * cubes`.
pub proof fn lemma_indices_in_range(cubes: int, j: int)
    requires
        0 <= j < 36 * cubes,
        8 * cubes <= u32::MAX,
    ensures
        8 * (j / 36) <= index_words(cubes)[j] < 8 * (j / 36) + 8,
        index_words(cubes)[j] < 8 * cubes,
        index_words(cubes)[j] == 8 * (j / 36) + offset_template()[j % 36],
{
    lemma_template_names_corners();
}

/// The triangles of a cube are made of the cube's own corners: index
/// `36 * i + k` names the slot of the vertex buffer that holds corner
/// `offset_template()[k]` of cube `i`.
pub proof fn lemma_triangles_name_own_corners(blocks: Seq<Block>, i: int, k: int)
    requires
        0 <= i < blocks.len(),
        0 <= k < 36,
        8 * blocks.len() <= u32::MAX,
    ensures
        0 <= index_words(blocks.len() as int)[36 * i + k] < vertex_stream(blocks).len(),
        vertex_stream(blocks)[index_words(blocks.len() as int)[36 * i + k] as int]
            == blocks[i].points@[offset_template()[k] as int],
{
    lemma_template_names_corners();
    lemma_indices_in_range(blocks.len() as int, 36 * i + k);
}

/// The index buffer of a chunk fits its vertex buffer: there are 36 indices
/// per cube, and every one of them names a slot of the chunk's vertex buffer.
pub proof fn lemma_indices_fit_chunk(chunk: Chunk, j: int)
    requires
        chunk.wf(),
        0 <= j < index_words(cube_count(chunk.edge_len())).len(),
    ensures
        index_words(cube_count(chunk.edge_len())).len() == 36 * chunk@.len(),
        0 <= index_words(cube_count(chunk.edge_len()))[j] < vertex_stream(chunk@).len(),
{
    lemma_cube_count_bound(chunk.edge_len());
    lemma_indices_in_range(cube_count(chunk.edge_len()), j);
}

/// The 36 triangle indices of one cube whose first vertex occupies slot `base`.
pub fn gen_indices_base(base: u32) -> (indices: Vec<u32>)
    requires
        base + 7 <= u32::MAX,
    ensures
        indices@ == cube_indices(base as int),
{
    let indices: Vec<u32> = vec![
        base + 0, base + 3, base + 1, base + 1, base + 3, base + 2,
        base + 4, base + 5, base + 6, base + 4, base + 6, base + 7,
        base + 0, base + 1, base + 5, base + 0, base + 5, base + 4,
        base + 2, base + 3, base + 7, base + 2, base + 7, base + 6,
        base + 0, base + 7, base + 3, base + 0, base + 4, base + 7,
        base + 1, base + 2, base + 6, base + 1, base + 6, base + 5,
    ];
    indices
}

/// The triangle indices of a chunk with `edge` cubes along each edge, cube by
/// cube in storage order.
pub fn gen_index_words(edge: usize) -> (indices: Vec<u32>)
    requires
        edge <= SIZE,
    ensures
        indices@ == index_words(cube_count(edge as int)),
        indices@.len() == 36 * cube_count(edge as int),
        forall|j: int| 0 <= j < indices@.len() ==> indices@[j] < 8 * cube_count(edge as int),
{
    proof {
        lemma_cube_count_bound(edge as int);
        assert(0 <= edge * edge <= 256) by (nonlinear_arith)
            requires
                0 <= edge <= 16,
        ;
    }
    let cubes: u32 = (edge * edge * edge) as u32;
    let mut res: Vec<u32> = Vec::new();
    let mut index: u32 = 0;
    while index < cubes
        invariant
            index <= cubes <= 4096,
            res@.len() == 36 * index,
            forall|j: int| 0 <= j < 36 * index ==> res@[j] == index_words(cubes as int)[j],
        decreases cubes - index,
    {
        let mut part: Vec<u32> = gen_indices_base(index * 8);
        res.append(&mut part);
        index = index + 1;
    }
    proof {
        assert forall|j: int| 0 <= j < res@.len() implies res@[j] < 8 * cube_count(
            edge as int,
        ) by {
            lemma_indices_in_range(cubes as int, j);
        }
    }
    res
}

/// The index buffer of a full chunk: its triangle indices as 32-bit words,
/// packed into bytes.
pub fn gen_indices() -> (bytes: Vec<u8>)
    ensures
        bytes@ == pack_words(index_words(4096)),
        bytes@.len() == 4 * 36 * 4096,
{
    proof {
        assert(cube_count(16) == 4096) by (nonlinear_arith);
    }
    let res: Vec<u32> = gen_index_words(SIZE);
    u32vec_to_u8vec(res)
}

} // verus!
