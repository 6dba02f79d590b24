//! Quad geometry: the vertex type, the shared index pattern of a
//! two-triangle quad, and the byte layout of a vertex as the GPU sees it.

use vstd::prelude::*;

verus! {

/// A vertex of a drawable quad.
///
/// Positions and texture coordinates are held in milli-units (one
/// thousandth of a normalized-device-coordinate unit), so `-1000`
/// stands for the left or bottom edge of the clip volume and `1000`
/// for the right or top edge. The seed is an auxiliary animation
/// parameter in milliseconds, consumed by the water shading stage;
/// it is not a spatial coordinate.
#[derive(Clone, Copy, Debug, PartialEq, Eq, Structural)]
pub struct Vertex {
    pub pos_x: i32,
    pub pos_y: i32,
    pub pos_z: i32,
    pub tex_u: i32,
    pub tex_v: i32,
    pub seed_milli: u64,
}

/// The index pattern shared by every quad in the scene: two
/// counter-clockwise triangles over vertices 0..4.
pub open spec fn quad_indices() -> Seq<u16> {
    seq![2u16, 1u16, 0u16, 2u16, 3u16, 1u16]
}

/// Builds the index buffer contents for one quad.
pub fn make_quad_indices() -> (r: Vec<u16>)
    ensures
        r@ == quad_indices(),
{
    let r: Vec<u16> = vec![2, 1, 0, 2, 3, 1];
    proof {
        assert(r@ =~= quad_indices());
    }
    r
}

/// How a single vertex attribute is handed to the GPU.
#[derive(Clone, Copy, Debug, PartialEq, Eq, Structural)]
pub enum VertexFormat {
    Float32,
    Float32x2,
    Float32x3,
}

/// The size in bytes of one attribute of the given format, once the
/// host has turned the integer model values into 32-bit floats.
pub open spec fn format_size_spec(f: VertexFormat) -> u64 {
    match f {
        VertexFormat::Float32 => 4,
        VertexFormat::Float32x2 => 8,
        VertexFormat::Float32x3 => 12,
    }
}

/// Returns the byte size of one attribute of the given format.
pub fn format_size(f: VertexFormat) -> (n: u64)
    ensures
        n == format_size_spec(f),
{
    match f {
        VertexFormat::Float32 => 4,
        VertexFormat::Float32x2 => 8,
        VertexFormat::Float32x3 => 12,
    }
}

/// Whether a vertex buffer advances per vertex or per instance.
#[derive(Clone, Copy, Debug, PartialEq, Eq, Structural)]
pub enum VertexStepMode {
    Vertex,
    Instance,
}

/// One attribute within the GPU-side vertex: where it starts, which
/// shader location reads it, and its format.
#[derive(Clone, Copy, Debug, PartialEq, Eq, Structural)]
pub struct VertexAttribute {
    pub offset: u64,
    pub shader_location: u32,
    pub format: VertexFormat,
}

/// The byte layout of one vertex buffer element as the GPU reads it.
#[derive(Clone, Debug)]
pub struct VertexBufferLayout {
    pub array_stride: u64,
    pub step_mode: VertexStepMode,
    pub attributes: Vec<VertexAttribute>,
}

/// The three attributes of [`Vertex`] in GPU order: position, texture
/// coordinate, seed, tightly packed.
pub open spec fn vertex_attributes() -> Seq<VertexAttribute> {
    seq![
        (VertexAttribute { offset: 0, shader_location: 0, format: VertexFormat::Float32x3 }),
        (VertexAttribute { offset: 12, shader_location: 1, format: VertexFormat::Float32x2 }),
        (VertexAttribute { offset: 20, shader_location: 2, format: VertexFormat::Float32 }),
    ]
}

impl Vertex {
    /// Describes the vertex buffer layout: three tightly packed
    /// attributes at shader locations 0, 1 and 2, advancing per vertex,
    /// with a stride equal to the packed size of the three formats.
    pub fn desc() -> (l: VertexBufferLayout)
        ensures
            l.attributes@ == vertex_attributes(),
            l.step_mode == VertexStepMode::Vertex,
            l.array_stride == format_size_spec(VertexFormat::Float32x3)
                + format_size_spec(VertexFormat::Float32x2)
                + format_size_spec(VertexFormat::Float32),
            l.array_stride == 24,
    {
        let position_size: u64 = format_size(VertexFormat::Float32x3);
        let tex_coords_size: u64 = format_size(VertexFormat::Float32x2);
        let seed_size: u64 = format_size(VertexFormat::Float32);
        let attributes: Vec<VertexAttribute> = vec![
            VertexAttribute { offset: 0, shader_location: 0, format: VertexFormat::Float32x3 },
            VertexAttribute {
                offset: position_size,
                shader_location: 1,
                format: VertexFormat::Float32x2,
            },
            VertexAttribute {
                offset: position_size + tex_coords_size,
                shader_location: 2,
                format: VertexFormat::Float32,
            },
        ];
        proof {
            assert(attributes@ =~= vertex_attributes());
        }
        VertexBufferLayout {
            array_stride: position_size + tex_coords_size + seed_size,
            step_mode: VertexStepMode::Vertex,
            attributes,
        }
    }
}

} // verus!
