//! Render pipeline and bind group descriptions: compiled shader entry
//! points and the fixed-function state shared by the two passes.

use vstd::prelude::*;

use crate::texture::TextureFormat;

verus! {

/// The entry points of the scene's one shader module: the shared
/// vertex stage and the two fragment stages.
#[derive(Clone, Copy, Debug, PartialEq, Eq, Structural)]
pub enum ShaderEntry {
    VsMain,
    FsMain,
    FsMainWater,
}

/// How the vertex stream is assembled into primitives.
#[derive(Clone, Copy, Debug, PartialEq, Eq, Structural)]
pub enum PrimitiveTopology {
    TriangleList,
    TriangleStrip,
}

/// Which winding order counts as the front of a triangle.
#[derive(Clone, Copy, Debug, PartialEq, Eq, Structural)]
pub enum FrontFace {
    Ccw,
    Cw,
}

/// Which side of a triangle is culled.
#[derive(Clone, Copy, Debug, PartialEq, Eq, Structural)]
pub enum CullMode {
    Front,
    Back,
}

/// How a fragment's output is combined with the target's contents.
#[derive(Clone, Copy, Debug, PartialEq, Eq, Structural)]
pub enum BlendMode {
    Replace,
    AlphaBlending,
}

/// A compiled render pipeline: shader entry points, the colour target
/// format, and the fixed-function state. Immutable after creation.
#[derive(Clone, Copy, Debug, PartialEq, Eq, Structural)]
pub struct PipelineSpec {
    pub vertex_entry: ShaderEntry,
    pub fragment_entry: ShaderEntry,
    pub target_format: TextureFormat,
    pub blend: BlendMode,
    pub topology: PrimitiveTopology,
    pub front_face: FrontFace,
    pub cull_mode: CullMode,
}

/// The fixed-function state both passes share: a back-face-culled
/// triangle list with counter-clockwise fronts, replacing the target's
/// colour, rendering to the given format through the given fragment
/// entry.
pub open spec fn scene_pipeline(fragment_entry: ShaderEntry, format: TextureFormat) -> PipelineSpec {
    PipelineSpec {
        vertex_entry: ShaderEntry::VsMain,
        fragment_entry: fragment_entry,
        target_format: format,
        blend: BlendMode::Replace,
        topology: PrimitiveTopology::TriangleList,
        front_face: FrontFace::Ccw,
        cull_mode: CullMode::Back,
    }
}

/// Builds the pipeline description for one pass of the scene.
pub fn make_scene_pipeline(fragment_entry: ShaderEntry, format: TextureFormat) -> (p:
    PipelineSpec)
    ensures
        p == scene_pipeline(fragment_entry, format),
{
    PipelineSpec {
        vertex_entry: ShaderEntry::VsMain,
        fragment_entry,
        target_format: format,
        blend: BlendMode::Replace,
        topology: PrimitiveTopology::TriangleList,
        front_face: FrontFace::Ccw,
        cull_mode: CullMode::Back,
    }
}

/// What one binding of the texture bind group holds.
#[derive(Clone, Copy, Debug, PartialEq, Eq, Structural)]
pub enum BindingType {
    FilterableTexture2d,
    FilteringSampler,
}

/// One slot of a bind group layout: its binding index, the stage that
/// reads it, and what it holds.
#[derive(Clone, Copy, Debug, PartialEq, Eq, Structural)]
pub struct BindGroupLayoutEntry {
    pub binding: u32,
    pub fragment_visible: bool,
    pub ty: BindingType,
}

/// The one bind group layout the scene uses, shared by both passes: a
/// filterable two-dimensional texture at binding 0 and a filtering
/// sampler at binding 1, both read by the fragment stage.
pub open spec fn texture_bind_group_layout() -> Seq<BindGroupLayoutEntry> {
    seq![
        (BindGroupLayoutEntry {
            binding: 0,
            fragment_visible: true,
            ty: BindingType::FilterableTexture2d,
        }),
        (BindGroupLayoutEntry {
            binding: 1,
            fragment_visible: true,
            ty: BindingType::FilteringSampler,
        }),
    ]
}

/// Builds the shared texture-and-sampler bind group layout.
pub fn make_texture_bind_group_layout() -> (v: Vec<BindGroupLayoutEntry>)
    ensures
        v@ == texture_bind_group_layout(),
{
    let v: Vec<BindGroupLayoutEntry> = vec![
        BindGroupLayoutEntry {
            binding: 0,
            fragment_visible: true,
            ty: BindingType::FilterableTexture2d,
        },
        BindGroupLayoutEntry {
            binding: 1,
            fragment_visible: true,
            ty: BindingType::FilteringSampler,
        },
    ];
    proof {
        assert(v@ =~= texture_bind_group_layout());
    }
    v
}

} // verus!
