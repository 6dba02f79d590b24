//! The background renderer: a fixed quad spanning from the top of the
//! clip volume to a sliver below the horizon, textured with the loaded
//! floor image.

use vstd::prelude::*;

use crate::frame::IndexFormat;
use crate::frame::LoadOp;
use crate::frame::PassSpec;
use crate::frame::RenderTarget;
use crate::frame::SampleSource;
use crate::frame::background_pass;
use crate::geometry::Vertex;
use crate::geometry::quad_indices;
use crate::geometry::make_quad_indices;
use crate::pipeline::PipelineSpec;
use crate::pipeline::ShaderEntry;
use crate::pipeline::scene_pipeline;
use crate::pipeline::make_scene_pipeline;
use crate::texture::Texture;
use crate::texture::TextureFormat;

verus! {

/// The background quad: full width, from the top edge down to just
/// below the vertical midpoint, texture coordinates covering the whole
/// image. Its seeds are inert constants — the background fragment
/// stage never reads them.
pub open spec fn background_quad() -> Seq<Vertex> {
    seq![
        (Vertex { pos_x: -1000i32, pos_y: 1000, pos_z: 1000, tex_u: 0, tex_v: 0, seed_milli: 1400 }),
        (Vertex { pos_x: 1000, pos_y: 1000, pos_z: 1000, tex_u: 1000, tex_v: 0, seed_milli: 2900 }),
        (Vertex { pos_x: -1000i32, pos_y: -5i32, pos_z: 1000, tex_u: 0, tex_v: 1000, seed_milli: 9900 }),
        (Vertex { pos_x: 1000, pos_y: -5i32, pos_z: 1000, tex_u: 1000, tex_v: 1000, seed_milli: 0 }),
    ]
}

/// The background renderer: the loaded floor texture it owns, its
/// fixed quad, the quad's index pattern, and its pipeline. Immutable
/// after construction.
#[derive(Clone, Debug)]
pub struct Background {
    pub texture: Texture,
    pub vertex_array: Vec<Vertex>,
    pub indices: Vec<u16>,
    pub pipeline: PipelineSpec,
}

impl Background {
    /// A well-formed background holds a well-formed texture, the fixed
    /// background quad, the shared index pattern, and the plain
    /// background pipeline.
    pub open spec fn wf(self) -> bool {
        &&& self.texture.wf()
        &&& self.vertex_array@ == background_quad()
        &&& self.indices@ == quad_indices()
        &&& self.pipeline.vertex_entry == ShaderEntry::VsMain
        &&& self.pipeline.fragment_entry == ShaderEntry::FsMain
    }

    /// Builds the background renderer around the loaded texture, for a
    /// surface of the given format: the fixed quad, the shared index
    /// pattern, and a pipeline whose fragment stage is the plain
    /// textured entry point.
    pub fn new(texture: Texture, format: TextureFormat) -> (b: Background)
        requires
            texture.wf(),
        ensures
            b.wf(),
            b.texture == texture,
            b.pipeline == scene_pipeline(ShaderEntry::FsMain, format),
    {
        let vertex_array: Vec<Vertex> = vec![
            Vertex { pos_x: -1000, pos_y: 1000, pos_z: 1000, tex_u: 0, tex_v: 0, seed_milli: 1400 },
            Vertex {
                pos_x: 1000,
                pos_y: 1000,
                pos_z: 1000,
                tex_u: 1000,
                tex_v: 0,
                seed_milli: 2900,
            },
            Vertex { pos_x: -1000, pos_y: -5, pos_z: 1000, tex_u: 0, tex_v: 1000, seed_milli: 9900 },
            Vertex { pos_x: 1000, pos_y: -5, pos_z: 1000, tex_u: 1000, tex_v: 1000, seed_milli: 0 },
        ];
        proof {
            assert(vertex_array@ =~= background_quad());
        }
        Background {
            texture,
            vertex_array,
            indices: make_quad_indices(),
            pipeline: make_scene_pipeline(ShaderEntry::FsMain, format),
        }
    }

    /// Describes one draw of the background into the given target: a
    /// pass that samples the floor texture, preserves the target's
    /// previous contents, stores its result, and draws the six quad
    /// indices. Drawing mutates only the target's pixels; the
    /// background itself is untouched.
    pub fn draw(&self, target: RenderTarget) -> (p: PassSpec)
        ensures
            p == background_pass(target),
    {
        PassSpec {
            target,
            source: SampleSource::FloorTexture,
            fragment_entry: ShaderEntry::FsMain,
            load_op: LoadOp::Load,
            store: true,
            index_format: IndexFormat::Uint16,
            index_count: 6,
        }
    }
}

} // verus!
