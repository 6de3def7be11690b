//! The vertex and its layout in a vertex buffer.
//!
//! A vertex is seven 32-bit words: three for the position, one for the texture
//! layer, three for the texture coordinates.

use vstd::prelude::*;

verus! {

/// Three binary32 patterns, one per axis.
#[derive(Clone, Copy, Debug, PartialEq, Eq, Structural)]
pub struct Single3 {
    pub x: u32,
    pub y: u32,
    pub z: u32,
}

/// One corner of a cube as the device reads it: a position, a texture layer and
/// texture coordinates. The position and the texture coordinates are binary32
/// patterns.
#[derive(Clone, Copy, Debug, PartialEq, Eq, Structural)]
pub struct Vertex {
    pub position: Single3,
    pub tex_index: i32,
    pub tex_coords: Single3,
}

/// How the device reads one attribute of a vertex.
#[derive(Clone, Copy, Debug, PartialEq, Eq, Structural)]
pub enum VertexFormat {
    /// Three binary32 numbers.
    Float32x3,
    /// One signed 32-bit number.
    Sint32,
}

/// Whether the device steps to the next record for every vertex or for every
/// instance.
#[derive(Clone, Copy, Debug, PartialEq, Eq, Structural)]
pub enum VertexStepMode {
    Vertex,
    Instance,
}

/// One attribute of a vertex: what it holds, at which byte of the vertex it
/// starts, and the shader input that receives it.
#[derive(Clone, Copy, Debug, PartialEq, Eq, Structural)]
pub struct VertexAttribute {
    pub format: VertexFormat,
    pub offset: u64,
    pub shader_location: u32,
}

/// How the device reads a vertex buffer: the bytes from one vertex to the next
/// and the attributes of each vertex.
#[derive(Clone, Debug)]
pub struct VertexBufferLayout {
    pub array_stride: u64,
    pub step_mode: VertexStepMode,
    pub attributes: Vec<VertexAttribute>,
}

impl VertexFormat {
    /// The number of 32-bit words that an attribute of this format fills.
    pub open spec fn words(self) -> int {
        match self {
            VertexFormat::Float32x3 => 3,
            VertexFormat::Sint32 => 1,
        }
    }
}

/// The attributes of a vertex: the position, the texture layer, the texture
/// coordinates.
pub open spec fn vertex_attributes() -> Seq<VertexAttribute> {
    seq![
        VertexAttribute { format: VertexFormat::Float32x3, offset: 0, shader_location: 0 },
        VertexAttribute { format: VertexFormat::Sint32, offset: 12, shader_location: 1 },
        VertexAttribute { format: VertexFormat::Float32x3, offset: 16, shader_location: 2 },
    ]
}

/// The attributes tile the seven words of a vertex: the first starts at byte
/// zero, each one starts where the one before it ends, and the last ends at the
/// stride of 28 bytes.
pub proof fn lemma_attributes_tile_vertex()
    ensures
        vertex_attributes().len() == 3,
        vertex_attributes()[0].offset == 0,
        forall|a: int|
            0 <= a < 2 ==> (#[trigger] vertex_attributes()[a + 1]).offset == vertex_attributes()[a].offset
                + 4 * vertex_attributes()[a].format.words(),
        vertex_attributes()[2].offset + 4 * vertex_attributes()[2].format.words() == 28,
        forall|a: int| 0 <= a < 3 ==> (#[trigger] vertex_attributes()[a]).shader_location == a,
{
}

impl Vertex {
    /// Describes the layout of a vertex in the bytes of a vertex buffer.
    pub fn desc() -> (layout: VertexBufferLayout)
        ensures
            layout.array_stride == 28,
            layout.step_mode == VertexStepMode::Vertex,
            layout.attributes@ == vertex_attributes(),
    {
        let attributes: Vec<VertexAttribute> = vec![
            VertexAttribute { format: VertexFormat::Float32x3, offset: 0, shader_location: 0 },
            VertexAttribute { format: VertexFormat::Sint32, offset: 12, shader_location: 1 },
            VertexAttribute { format: VertexFormat::Float32x3, offset: 16, shader_location: 2 },
        ];
        VertexBufferLayout { array_stride: 28, step_mode: VertexStepMode::Vertex, attributes }
    }
}

/// The 32-bit word that carries a signed value in two's complement.
pub open spec fn signed_word(v: i32) -> u32 {
    if v >= 0 {
        v as u32
    } else {
        (v + 0x1_0000_0000) as u32
    }
}

/// The signed value that a word carries in two's complement.
pub open spec fn word_signed(word: u32) -> i32 {
    if word < 0x8000_0000 {
        word as i32
    } else {
        (word - 0x1_0000_0000) as i32
    }
}

/// Word `f` of the seven words of a vertex: the position, the texture layer,
/// the texture coordinates.
pub open spec fn vertex_word(v: Vertex, f: int) -> u32 {
    if f == 0 {
        v.position.x
    } else if f == 1 {
        v.position.y
    } else if f == 2 {
        v.position.z
    } else if f == 3 {
        signed_word(v.tex_index)
    } else if f == 4 {
        v.tex_coords.x
    } else if f == 5 {
        v.tex_coords.y
    } else {
        v.tex_coords.z
    }
}

/// Word `f` of attribute `a` of a vertex, attributes counted as the layout
/// lists them.
pub open spec fn attribute_word(v: Vertex, a: int, f: int) -> u32 {
    if a == 0 {
        if f == 0 {
            v.position.x
        } else if f == 1 {
            v.position.y
        } else {
            v.position.z
        }
    } else if a == 1 {
        signed_word(v.tex_index)
    } else {
        if f == 0 {
            v.tex_coords.x
        } else if f == 1 {
            v.tex_coords.y
        } else {
            v.tex_coords.z
        }
    }
}

/// The words of a vertex buffer: vertex `j` fills words `7 * j` to `7 * j + 6`.
pub open spec fn word_stream(vertices: Seq<Vertex>) -> Seq<u32> {
    Seq::new(7 * vertices.len(), |j: int| vertex_word(vertices[j / 7], j % 7))
}

/// The vertex made of the seven words of `words` that start at `start`.
pub open spec fn vertex_at(words: Seq<u32>, start: int) -> Vertex {
    Vertex {
        position: Single3 { x: words[start], y: words[start + 1], z: words[start + 2] },
        tex_index: word_signed(words[start + 3]),
        tex_coords: Single3 { x: words[start + 4], y: words[start + 5], z: words[start + 6] },
    }
}

/// Reading the words of a vertex buffer seven at a time gives the vertices.
pub proof fn lemma_word_stream_vertex(vertices: Seq<Vertex>, j: int)
    requires
        0 <= j < vertices.len(),
    ensures
        word_stream(vertices).len() == 7 * vertices.len(),
        vertex_at(word_stream(vertices), 7 * j) == vertices[j],
{
}

/// The word that carries a signed value in two's complement.
pub(crate) fn word_of_signed(v: i32) -> (word: u32)
    ensures
        word == signed_word(v),
{
    if v >= 0 {
        v as u32
    } else {
        (v as i64 + 0x1_0000_0000) as u32
    }
}

} // verus!
