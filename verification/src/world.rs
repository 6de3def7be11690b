//! Cubes and chunks.
//!
//! A cube sits at a grid coordinate and has eight corner vertices. A chunk is a
//! cubic grid of cubes, stored with the x coordinate varying fastest.

use crate::byteops::{lemma_pack_round_trip, pack_words, u32vec_to_u8vec, unpack_words};
use crate::single::{exact, single_bits, single_of};
use crate::vertex::{
    attribute_word, lemma_word_stream_vertex, vertex_at, vertex_attributes, word_of_signed,
    word_stream, Single3, Vertex,
};
use vstd::arithmetic::div_mod::{lemma_fundamental_div_mod, lemma_mod_bound};
use vstd::prelude::*;

verus! {

/// Cubes along each edge of a full chunk.
pub const SIZE: usize = 16;

/// A whole-number offset in grid units, from which a cube's position is counted.
#[derive(Clone, Copy, Debug, PartialEq, Eq, Structural)]
pub struct Offset3 {
    pub x: i32,
    pub y: i32,
    pub z: i32,
}

/// The eight corner vertices of one cube, in the order down-front-left,
/// down-front-right, down-back-right, down-back-left, up-front-left,
/// up-front-right, up-back-right, up-back-left.
#[derive(Clone, Copy, Debug, PartialEq, Eq)]
pub struct Block {
    pub points: [Vertex; 8],
}

/// Where corner `k` lies in the unit cube: right adds one to x, up adds one to
/// y, back adds one to z.
pub open spec fn corner_delta(k: int) -> (int, int, int) {
    if k == 0 {
        (0, 0, 0)
    } else if k == 1 {
        (1, 0, 0)
    } else if k == 2 {
        (1, 0, 1)
    } else if k == 3 {
        (0, 0, 1)
    } else if k == 4 {
        (0, 1, 0)
    } else if k == 5 {
        (1, 1, 0)
    } else if k == 6 {
        (1, 1, 1)
    } else {
        (0, 1, 1)
    }
}

/// The texture coordinates of corner `k`.
pub open spec fn corner_tex(k: int) -> (int, int, int) {
    if k == 0 {
        (-1, -1, -1)
    } else if k == 1 {
        (1, -1, -1)
    } else if k == 2 {
        (1, -1, 1)
    } else if k == 3 {
        (-1, -1, 1)
    } else if k == 4 {
        (-1, 1, -1)
    } else if k == 5 {
        (1, 1, -1)
    } else if k == 6 {
        (1, 1, 1)
    } else {
        (-1, 1, 1)
    }
}

/// Corner `k` of the cube at grid coordinate `(x, y, z)`, counted from `base`,
/// with texture layer `tex`.
pub open spec fn corner_vertex(base: Offset3, x: int, y: int, z: int, tex: i32, k: int) -> Vertex {
    let d = corner_delta(k);
    let t = corner_tex(k);
    Vertex {
        position: Single3 {
            x: single_bits(base.x + x + d.0),
            y: single_bits(base.y + y + d.1),
            z: single_bits(base.z + z + d.2),
        },
        tex_index: tex,
        tex_coords: Single3 { x: single_bits(t.0), y: single_bits(t.1), z: single_bits(t.2) },
    }
}

/// The eight corners of the cube at grid coordinate `(x, y, z)`.
pub open spec fn cube_vertices(base: Offset3, x: int, y: int, z: int, tex: i32) -> Seq<Vertex> {
    Seq::new(8, |k: int| corner_vertex(base, x, y, z, tex, k))
}

impl Offset3 {
    /// Whether every corner of every cube of a full chunk counted from this
    /// offset has whole coordinates in the exact binary32 range.
    pub open spec fn in_reach(self) -> bool {
        &&& exact(self.x as int) && exact(self.x + 16)
        &&& exact(self.y as int) && exact(self.y + 16)
        &&& exact(self.z as int) && exact(self.z + 16)
    }
}

impl Block {
    /// Builds the cube at grid coordinate `(index_x, index_y, index_z)`.
    pub fn new(base: &Offset3, index_x: u8, index_y: u8, index_z: u8, tex: i32) -> (block: Block)
        requires
            base.in_reach(),
            index_x < 16,
            index_y < 16,
            index_z < 16,
        ensures
            block.points@ == cube_vertices(*base, index_x as int, index_y as int, index_z as int, tex),
    {
        let left: u32 = single_of(base.x + index_x as i32);
        let right: u32 = single_of(base.x + index_x as i32 + 1);
        let down: u32 = single_of(base.y + index_y as i32);
        let up: u32 = single_of(base.y + index_y as i32 + 1);
        let front: u32 = single_of(base.z + index_z as i32);
        let back: u32 = single_of(base.z + index_z as i32 + 1);
        let minus: u32 = single_of(-1);
        let plus: u32 = single_of(1);
        let down_front_left = Vertex {
            position: Single3 { x: left, y: down, z: front },
            tex_index: tex,
            tex_coords: Single3 { x: minus, y: minus, z: minus },
        };
        let down_front_right = Vertex {
            position: Single3 { x: right, y: down, z: front },
            tex_index: tex,
            tex_coords: Single3 { x: plus, y: minus, z: minus },
        };
        let down_back_right = Vertex {
            position: Single3 { x: right, y: down, z: back },
            tex_index: tex,
            tex_coords: Single3 { x: plus, y: minus, z: plus },
        };
        let down_back_left = Vertex {
            position: Single3 { x: left, y: down, z: back },
            tex_index: tex,
            tex_coords: Single3 { x: minus, y: minus, z: plus },
        };
        let up_front_left = Vertex {
            position: Single3 { x: left, y: up, z: front },
            tex_index: tex,
            tex_coords: Single3 { x: minus, y: plus, z: minus },
        };
        let up_front_right = Vertex {
            position: Single3 { x: right, y: up, z: front },
            tex_index: tex,
            tex_coords: Single3 { x: plus, y: plus, z: minus },
        };
        let up_back_right = Vertex {
            position: Single3 { x: right, y: up, z: back },
            tex_index: tex,
            tex_coords: Single3 { x: plus, y: plus, z: plus },
        };
        let up_back_left = Vertex {
            position: Single3 { x: left, y: up, z: back },
            tex_index: tex,
            tex_coords: Single3 { x: minus, y: plus, z: plus },
        };
        let points = [
            down_front_left,
            down_front_right,
            down_back_right,
            down_back_left,
            up_front_left,
            up_front_right,
            up_back_right,
            up_back_left,
        ];
        Block { points }
    }
}

/// The number of cubes in a chunk with `edge` cubes along each edge.
pub open spec fn cube_count(edge: int) -> int {
    edge * edge * edge
}

/// A chunk with at most sixteen cubes along each edge holds at most 4096 cubes.
pub proof fn lemma_cube_count_bound(edge: int)
    requires
        0 <= edge <= 16,
    ensures
        0 <= cube_count(edge) <= 4096,
{
    assert(0 <= edge * edge <= 256) by (nonlinear_arith)
        requires
            0 <= edge <= 16,
    ;
    assert(0 <= edge * edge * edge <= 4096) by (nonlinear_arith)
        requires
            0 <= edge <= 16,
            0 <= edge * edge <= 256,
    ;
}

/// The place of the cube at grid coordinate `(x, y, z)` in a chunk's storage:
/// x varies fastest, then y, then z.
pub open spec fn linear_index(edge: int, x: int, y: int, z: int) -> int {
    z * edge * edge + y * edge + x
}

/// Whether `(x1, y1, z1)` comes before `(x2, y2, z2)` in storage order.
pub open spec fn stored_before(x1: int, y1: int, z1: int, x2: int, y2: int, z2: int) -> bool {
    z1 < z2 || (z1 == z2 && (y1 < y2 || (y1 == y2 && x1 < x2)))
}

/// Storage order is the order of the linear indices, and every grid coordinate
/// inside a chunk has its linear index below the number of cubes.
pub proof fn lemma_linear_index(edge: int, x1: int, y1: int, z1: int, x2: int, y2: int, z2: int)
    requires
        0 <= x1 < edge,
        0 <= y1 < edge,
        0 <= z1 < edge,
        0 <= x2 <= edge,
        0 <= y2 <= edge,
        0 <= z2 <= edge,
    ensures
        0 <= linear_index(edge, x1, y1, z1) < cube_count(edge),
        stored_before(x1, y1, z1, x2, y2, z2) ==> linear_index(edge, x1, y1, z1) < linear_index(
            edge,
            x2,
            y2,
            z2,
        ),
{
    let plane = edge * edge;
    assert(z1 * edge * edge == z1 * plane && z2 * edge * edge == z2 * plane && edge * edge * edge
        == edge * plane) by (nonlinear_arith)
        requires
            plane == edge * edge,
    ;
    assert(0 <= y1 * edge && y1 * edge + edge <= plane) by (nonlinear_arith)
        requires
            0 <= y1 < edge,
            plane == edge * edge,
    ;
    assert(0 <= y2 * edge) by (nonlinear_arith)
        requires
            0 <= y2,
            0 <= edge,
    ;
    assert(0 <= z1 * plane && z1 * plane + plane <= edge * plane) by (nonlinear_arith)
        requires
            0 <= z1 < edge,
            0 <= plane,
    ;
    if z1 < z2 {
        assert(z1 * plane + plane <= z2 * plane) by (nonlinear_arith)
            requires
                z1 < z2,
                0 <= plane,
        ;
    } else if z1 == z2 && y1 < y2 {
        assert(y1 * edge + edge <= y2 * edge) by (nonlinear_arith)
            requires
                y1 < y2,
                0 <= edge,
        ;
    }
}

/// No two grid coordinates of a chunk share a place in storage.
pub proof fn lemma_linear_index_injective(
    edge: int,
    x1: int,
    y1: int,
    z1: int,
    x2: int,
    y2: int,
    z2: int,
)
    requires
        0 <= x1 < edge,
        0 <= y1 < edge,
        0 <= z1 < edge,
        0 <= x2 < edge,
        0 <= y2 < edge,
        0 <= z2 < edge,
        linear_index(edge, x1, y1, z1) == linear_index(edge, x2, y2, z2),
    ensures
        x1 == x2,
        y1 == y2,
        z1 == z2,
{
    lemma_linear_index(edge, x1, y1, z1, x2, y2, z2);
    lemma_linear_index(edge, x2, y2, z2, x1, y1, z1);
}

/// Every place in a chunk's storage belongs to a grid coordinate: place `i`
/// holds the cube at `(i % edge, (i / edge) % edge, (i / edge) / edge)`.
pub proof fn lemma_grid_coordinate(edge: int, i: int)
    requires
        0 <= i < cube_count(edge),
        0 < edge,
    ensures
        0 <= i % edge < edge,
        0 <= (i / edge) % edge < edge,
        0 <= (i / edge) / edge < edge,
        linear_index(edge, i % edge, (i / edge) % edge, (i / edge) / edge) == i,
{
    let x = i % edge;
    let q = i / edge;
    let y = q % edge;
    let z = q / edge;
    lemma_fundamental_div_mod(i, edge);
    lemma_mod_bound(i, edge);
    assert(q >= 0) by (nonlinear_arith)
        requires
            i == edge * q + x,
            0 <= x < edge,
            0 <= i,
            0 < edge,
    ;
    lemma_fundamental_div_mod(q, edge);
    lemma_mod_bound(q, edge);
    assert(z >= 0) by (nonlinear_arith)
        requires
            q == edge * z + y,
            0 <= y < edge,
            0 <= q,
            0 < edge,
    ;
    assert(z < edge) by (nonlinear_arith)
        requires
            i == edge * q + x,
            q == edge * z + y,
            0 <= x,
            0 <= y,
            0 < edge,
            i < edge * edge * edge,
    ;
    assert(z * edge * edge + y * edge + x == i) by (nonlinear_arith)
        requires
            i == edge * q + x,
            q == edge * z + y,
    ;
}

/// The vertex buffer of a sequence of cubes: the eight vertices of cube `i`
/// occupy slots `8 * i` to `8 * i + 7`.
pub open spec fn vertex_stream(blocks: Seq<Block>) -> Seq<Vertex> {
    Seq::new(8 * blocks.len(), |j: int| blocks[j / 8].points@[j % 8])
}

/// The bytes of the vertex buffer of a sequence of cubes.
pub open spec fn chunk_bytes(blocks: Seq<Block>) -> Seq<u8> {
    pack_words(word_stream(vertex_stream(blocks)))
}

/// The eight vertices of cube `i` occupy exactly the slots `8 * i` to
/// `8 * i + 7` of the vertex buffer: slot `8 * i + k` holds corner `k` of cube
/// `i`, and the buffer has no other slots.
pub proof fn lemma_cube_vertex_slots(blocks: Seq<Block>, i: int, k: int)
    requires
        0 <= i < blocks.len(),
        0 <= k < 8,
    ensures
        vertex_stream(blocks).len() == 8 * blocks.len(),
        0 <= 8 * i + k < vertex_stream(blocks).len(),
        vertex_stream(blocks)[8 * i + k] == blocks[i].points@[k],
{
}

/// Every slot of the vertex buffer belongs to one cube: slot `j` holds corner
/// `j % 8` of cube `j / 8`.
pub proof fn lemma_vertex_slot_owner(blocks: Seq<Block>, j: int)
    requires
        0 <= j < vertex_stream(blocks).len(),
    ensures
        0 <= j / 8 < blocks.len(),
        8 * (j / 8) <= j < 8 * (j / 8) + 8,
        vertex_stream(blocks)[j] == blocks[j / 8].points@[j % 8],
{
}

/// The bytes of cube `i` occupy exactly the 224 bytes that start at byte
/// `224 * i` of the chunk's bytes, and they are the bytes that the cube would
/// have alone.
pub proof fn lemma_cube_byte_range(blocks: Seq<Block>, i: int)
    requires
        0 <= i < blocks.len(),
    ensures
        chunk_bytes(blocks).len() == 224 * blocks.len(),
        chunk_bytes(blocks).subrange(224 * i, 224 * i + 224) == chunk_bytes(seq![blocks[i]]),
{
    let one = chunk_bytes(seq![blocks[i]]);
    let part = chunk_bytes(blocks).subrange(224 * i, 224 * i + 224);
    assert forall|b: int| 0 <= b < 224 implies part[b] == one[b] by {}
}

/// A chunk's vertices survive packing: the words unpacked from its bytes,
/// read seven at a time, are the vertices of its vertex buffer.
pub proof fn lemma_chunk_round_trip(blocks: Seq<Block>, j: int)
    requires
        0 <= j < vertex_stream(blocks).len(),
    ensures
        unpack_words(chunk_bytes(blocks)).len() == 7 * vertex_stream(blocks).len(),
        vertex_at(unpack_words(chunk_bytes(blocks)), 7 * j) == vertex_stream(blocks)[j],
{
    lemma_pack_round_trip(word_stream(vertex_stream(blocks)));
    lemma_word_stream_vertex(vertex_stream(blocks), j);
}

/// The layout describes the bytes: in the vertex buffer of a chunk, word `f`
/// of attribute `a` of the vertex in slot `j` stands at the byte that the
/// layout names, `array_stride * j + offset + 4 * f`.
pub proof fn lemma_layout_describes_bytes(blocks: Seq<Block>, j: int, a: int, f: int)
    requires
        0 <= j < vertex_stream(blocks).len(),
        0 <= a < 3,
        0 <= f < vertex_attributes()[a].format.words(),
    ensures
        28 * j + vertex_attributes()[a].offset + 4 * f + 4 <= chunk_bytes(blocks).len(),
        chunk_bytes(blocks).subrange(
            28 * j + vertex_attributes()[a].offset + 4 * f,
            28 * j + vertex_attributes()[a].offset + 4 * f + 4,
        ) == pack_words(seq![attribute_word(vertex_stream(blocks)[j], a, f)]),
{
    let start = 28 * j + vertex_attributes()[a].offset + 4 * f;
    let part = chunk_bytes(blocks).subrange(start, start + 4);
    let one = pack_words(seq![attribute_word(vertex_stream(blocks)[j], a, f)]);
    assert forall|b: int| 0 <= b < 4 implies part[b] == one[b] by {}
}

/// A cubic grid of cubes.
pub struct Chunk {
    edge: usize,
    blocks: Vec<Block>,
}

impl View for Chunk {
    type V = Seq<Block>;

    closed spec fn view(&self) -> Seq<Block> {
        self.blocks@
    }
}

impl Chunk {
    /// Cubes along each edge.
    pub closed spec fn edge_len(&self) -> int {
        self.edge as int
    }

    /// A chunk holds one cube for every grid coordinate, and no more than a full
    /// chunk does.
    pub open spec fn wf(&self) -> bool {
        &&& 0 <= self.edge_len() <= 16
        &&& self@.len() == cube_count(self.edge_len())
    }

    /// Whether every cube stands at the place of its grid coordinate, counted
    /// from `base`, with texture layer `tex`.
    pub open spec fn filled_with(&self, base: Offset3, tex: i32) -> bool {
        forall|x: int, y: int, z: int|
            0 <= x < self.edge_len() && 0 <= y < self.edge_len() && 0 <= z < self.edge_len()
                ==> (#[trigger] self@[linear_index(self.edge_len(), x, y, z)]).points@
                == cube_vertices(base, x, y, z, tex)
    }

    /// Cubes along each edge.
    pub fn edge(&self) -> (edge: usize)
        ensures
            edge == self.edge_len(),
    {
        self.edge
    }

    /// The cubes in storage order.
    pub fn blocks(&self) -> (blocks: &Vec<Block>)
        ensures
            blocks@ == self@,
    {
        &self.blocks
    }

    /// Builds the chunk with `edge` cubes along each edge, every cube with
    /// texture layer `tex`, layer by layer: z outermost, then y, then x.
    pub fn uniform(edge: usize, base: &Offset3, tex: i32) -> (chunk: Chunk)
        requires
            edge <= SIZE,
            base.in_reach(),
        ensures
            chunk.wf(),
            chunk.edge_len() == edge,
            chunk.filled_with(*base, tex),
    {
        let mut blocks: Vec<Block> = Vec::new();
        let ghost e = edge as int;
        let mut z: usize = 0;
        while z < edge
            invariant
                z <= edge <= 16,
                e == edge,
                base.in_reach(),
                blocks@.len() == linear_index(e, 0, 0, z as int),
                forall|x1: int, y1: int, z1: int|
                    0 <= x1 < e && 0 <= y1 < e && 0 <= z1 < e && stored_before(
                        x1,
                        y1,
                        z1,
                        0,
                        0,
                        z as int,
                    ) ==> (#[trigger] blocks@[linear_index(e, x1, y1, z1)]).points@
                        == cube_vertices(*base, x1, y1, z1, tex),
            decreases edge - z,
        {
            let mut y: usize = 0;
            while y < edge
                invariant
                    z < edge <= 16,
                    y <= edge,
                    e == edge,
                    base.in_reach(),
                    blocks@.len() == linear_index(e, 0, y as int, z as int),
                    forall|x1: int, y1: int, z1: int|
                        0 <= x1 < e && 0 <= y1 < e && 0 <= z1 < e && stored_before(
                            x1,
                            y1,
                            z1,
                            0,
                            y as int,
                            z as int,
                        ) ==> (#[trigger] blocks@[linear_index(e, x1, y1, z1)]).points@
                            == cube_vertices(*base, x1, y1, z1, tex),
                decreases edge - y,
            {
                let mut x: usize = 0;
                while x < edge
                    invariant
                        z < edge <= 16,
                        y < edge,
                        x <= edge,
                        e == edge,
                        base.in_reach(),
                        blocks@.len() == linear_index(e, x as int, y as int, z as int),
                        forall|x1: int, y1: int, z1: int|
                            0 <= x1 < e && 0 <= y1 < e && 0 <= z1 < e && stored_before(
                                x1,
                                y1,
                                z1,
                                x as int,
                                y as int,
                                z as int,
                            ) ==> (#[trigger] blocks@[linear_index(e, x1, y1, z1)]).points@
                                == cube_vertices(*base, x1, y1, z1, tex),
                    decreases edge - x,
                {
                    let block = Block::new(base, x as u8, y as u8, z as u8, tex);
                    let ghost before = blocks@;
                    blocks.push(block);
                    proof {
                        assert forall|x1: int, y1: int, z1: int|
                            0 <= x1 < e && 0 <= y1 < e && 0 <= z1 < e && stored_before(
                                x1,
                                y1,
                                z1,
                                x as int + 1,
                                y as int,
                                z as int,
                            ) implies (#[trigger] blocks@[linear_index(e, x1, y1, z1)]).points@
                            == cube_vertices(*base, x1, y1, z1, tex) by {
                            if stored_before(x1, y1, z1, x as int, y as int, z as int) {
                                lemma_linear_index(e, x1, y1, z1, x as int, y as int, z as int);
                                assert(blocks@[linear_index(e, x1, y1, z1)] == before[linear_index(
                                    e,
                                    x1,
                                    y1,
                                    z1,
                                )]);
                            }
                        }
                    }
                    x = x + 1;
                }
                proof {
                    assert(linear_index(e, e, y as int, z as int) == linear_index(
                        e,
                        0,
                        y as int + 1,
                        z as int,
                    )) by (nonlinear_arith);
                }
                y = y + 1;
            }
            proof {
                assert(linear_index(e, 0, e, z as int) == linear_index(e, 0, 0, z as int + 1))
                    by (nonlinear_arith);
            }
            z = z + 1;
        }
        proof {
            assert(linear_index(e, 0, 0, e) == cube_count(e)) by (nonlinear_arith);
        }
        Chunk { edge, blocks }
    }

    /// Builds a full chunk at the origin, every cube with texture layer 2.
    pub fn random() -> (chunk: Chunk)
        ensures
            chunk.wf(),
            chunk.edge_len() == 16,
            chunk@.len() == 4096,
            chunk.filled_with(Offset3 { x: 0, y: 0, z: 0 }, 2),
    {
        proof {
            assert(cube_count(16) == 4096) by (nonlinear_arith);
        }
        Chunk::uniform(SIZE, &Offset3 { x: 0, y: 0, z: 0 }, 2)
    }

    /// Turns the chunk into the bytes of its vertex buffer.
    pub fn to_bytes(self) -> (bytes: Vec<u8>)
        ensures
            bytes@ == chunk_bytes(self@),
            bytes@.len() == 224 * self@.len(),
    {
        let ghost stream = word_stream(vertex_stream(self.blocks@));
        let mut words: Vec<u32> = Vec::new();
        let mut i: usize = 0;
        while i < self.blocks.len()
            invariant
                i <= self.blocks@.len(),
                stream == word_stream(vertex_stream(self.blocks@)),
                words@.len() == 56 * i,
                forall|j: int| 0 <= j < words@.len() ==> words@[j] == stream[j],
            decreases self.blocks@.len() - i,
        {
            let mut k: usize = 0;
            while k < 8
                invariant
                    i < self.blocks@.len(),
                    k <= 8,
                    stream == word_stream(vertex_stream(self.blocks@)),
                    words@.len() == 56 * i + 7 * k,
                    forall|j: int| 0 <= j < words@.len() ==> words@[j] == stream[j],
                decreases 8 - k,
            {
                let v: Vertex = self.blocks[i].points[k];
                words.push(v.position.x);
                words.push(v.position.y);
                words.push(v.position.z);
                words.push(word_of_signed(v.tex_index));
                words.push(v.tex_coords.x);
                words.push(v.tex_coords.y);
                words.push(v.tex_coords.z);
                k = k + 1;
            }
            i = i + 1;
        }
        u32vec_to_u8vec(words)
    }
}

/// In a chunk whose cubes stand at their places, the vertex buffer holds corner
/// `k` of the cube at grid coordinate `(x, y, z)` in slot `8 * i + k`, where
/// `i` is the cube's linear index `z * edge * edge + y * edge + x`.
pub proof fn lemma_chunk_vertex_slots(
    chunk: Chunk,
    base: Offset3,
    tex: i32,
    x: int,
    y: int,
    z: int,
    k: int,
)
    requires
        chunk.wf(),
        chunk.filled_with(base, tex),
        0 <= x < chunk.edge_len(),
        0 <= y < chunk.edge_len(),
        0 <= z < chunk.edge_len(),
        0 <= k < 8,
    ensures
        vertex_stream(chunk@).len() == 8 * cube_count(chunk.edge_len()),
        0 <= linear_index(chunk.edge_len(), x, y, z) < cube_count(chunk.edge_len()),
        vertex_stream(chunk@)[8 * linear_index(chunk.edge_len(), x, y, z) + k] == corner_vertex(
            base,
            x,
            y,
            z,
            tex,
            k,
        ),
{
    lemma_linear_index(chunk.edge_len(), x, y, z, 0, 0, 0);
    lemma_cube_vertex_slots(chunk@, linear_index(chunk.edge_len(), x, y, z), k);
}

} // verus!
