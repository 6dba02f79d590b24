//! The water renderer's state: a four-vertex quad over the lower half
//! of the scene whose seed attribute carries the elapsed time, reset
//! to a canonical shape before every draw.

use vstd::prelude::*;

use crate::frame::IndexFormat;
use crate::frame::LoadOp;
use crate::frame::PassSpec;
use crate::frame::RenderTarget;
use crate::frame::SampleSource;
use crate::frame::water_pass;
use crate::geometry::Vertex;
use crate::geometry::quad_indices;
use crate::geometry::make_quad_indices;
use crate::pipeline::PipelineSpec;
use crate::pipeline::ShaderEntry;
use crate::pipeline::scene_pipeline;
use crate::pipeline::make_scene_pipeline;
use crate::texture::TextureFormat;

verus! {

/// The water quad as first built: spanning the lower half of the clip
/// volume, its top edge a sliver below the horizon, texture
/// coordinates covering the lower half of the reflection input, seed
/// zero.
pub open spec fn water_rest_quad() -> Seq<Vertex> {
    seq![
        (Vertex { pos_x: -1000i32, pos_y: -5i32, pos_z: 0, tex_u: 0, tex_v: 500, seed_milli: 0 }),
        (Vertex { pos_x: 1000, pos_y: -5i32, pos_z: 0, tex_u: 1000, tex_v: 500, seed_milli: 0 }),
        (Vertex { pos_x: -1000i32, pos_y: -1000i32, pos_z: 0, tex_u: 0, tex_v: 0, seed_milli: 0 }),
        (Vertex { pos_x: 1000, pos_y: -1000i32, pos_z: 0, tex_u: 1000, tex_v: 0, seed_milli: 0 }),
    ]
}

/// The canonical regenerated water quad at a given elapsed time: the
/// same four positions and texture coordinates every time, the top
/// edge exactly on the horizon, and every vertex's seed equal to the
/// elapsed milliseconds.
pub open spec fn water_quad_at(elapsed_milli: u64) -> Seq<Vertex> {
    seq![
        (Vertex { pos_x: -1000i32, pos_y: 0, pos_z: 0, tex_u: 0, tex_v: 500, seed_milli: elapsed_milli }),
        (Vertex { pos_x: 1000, pos_y: 0, pos_z: 0, tex_u: 1000, tex_v: 500, seed_milli: elapsed_milli }),
        (Vertex { pos_x: -1000i32, pos_y: -1000i32, pos_z: 0, tex_u: 0, tex_v: 0, seed_milli: elapsed_milli }),
        (Vertex { pos_x: 1000, pos_y: -1000i32, pos_z: 0, tex_u: 1000, tex_v: 0, seed_milli: elapsed_milli }),
    ]
}

/// Two vertex sequences describe the same shape: equal lengths and,
/// vertex by vertex, equal positions and texture coordinates. The
/// seeds may differ.
pub open spec fn same_quad_shape(a: Seq<Vertex>, b: Seq<Vertex>) -> bool {
    &&& a.len() == b.len()
    &&& forall|i: int|
        0 <= i < a.len() ==> {
            &&& #[trigger] a[i].pos_x == b[i].pos_x
            &&& a[i].pos_y == b[i].pos_y
            &&& a[i].pos_z == b[i].pos_z
            &&& a[i].tex_u == b[i].tex_u
            &&& a[i].tex_v == b[i].tex_v
        }
}

/// Law: regeneration is a structural reset. Whatever elapsed times two
/// regenerations see — and so whatever the quad held before them — the
/// regenerated quads have the same four positions and texture
/// coordinates; every seed equals the elapsed time, so only the seeds
/// distinguish them.
pub proof fn lemma_regen_canonical(t1: u64, t2: u64)
    ensures
        water_quad_at(t1).len() == 4,
        same_quad_shape(water_quad_at(t1), water_quad_at(t2)),
        forall|i: int| 0 <= i < 4 ==> #[trigger] water_quad_at(t1)[i].seed_milli == t1,
{
    assert forall|i: int| 0 <= i < 4 implies #[trigger] water_quad_at(t1)[i].seed_milli
        == t1 by {
        if i == 0 {
        } else if i == 1 {
        } else if i == 2 {
        } else {
            assert(i == 3);
        }
    }
    assert(same_quad_shape(water_quad_at(t1), water_quad_at(t2))) by {
        assert forall|i: int| 0 <= i < 4 implies #[trigger] water_quad_at(t1)[i].pos_x
            == water_quad_at(t2)[i].pos_x && water_quad_at(t1)[i].pos_y == water_quad_at(
            t2,
        )[i].pos_y && water_quad_at(t1)[i].pos_z == water_quad_at(t2)[i].pos_z && water_quad_at(
            t1,
        )[i].tex_u == water_quad_at(t2)[i].tex_u && water_quad_at(t1)[i].tex_v == water_quad_at(
            t2,
        )[i].tex_v by {
            if i == 0 {
            } else if i == 1 {
            } else if i == 2 {
            } else {
                assert(i == 3);
            }
        }
    }
}

/// Law: the seed is monotone in the elapsed time. Regenerations
/// performed at non-decreasing elapsed times leave non-decreasing
/// seeds on every vertex.
pub proof fn lemma_seed_monotonic(t1: u64, t2: u64)
    requires
        t1 <= t2,
    ensures
        forall|i: int|
            0 <= i < 4 ==> #[trigger] water_quad_at(t1)[i].seed_milli <= water_quad_at(
                t2,
            )[i].seed_milli,
{
    lemma_regen_canonical(t1, t1);
    lemma_regen_canonical(t2, t2);
}

/// The water renderer: its pipeline, its current four vertices, and
/// the quad's index pattern. The vertices are the only per-frame
/// mutable state in the scene.
#[derive(Clone, Debug)]
pub struct Water {
    pub vertex_array: Vec<Vertex>,
    pub indices: Vec<u16>,
    pub pipeline: PipelineSpec,
}

impl Water {
    /// A well-formed water renderer always holds a four-vertex quad,
    /// the shared index pattern, and the water pipeline.
    pub open spec fn wf(self) -> bool {
        &&& self.vertex_array@.len() == 4
        &&& self.indices@ == quad_indices()
        &&& self.pipeline.vertex_entry == ShaderEntry::VsMain
        &&& self.pipeline.fragment_entry == ShaderEntry::FsMainWater
    }

    /// Builds the water renderer for a surface of the given format:
    /// the rest quad, the shared index pattern, and a pipeline whose
    /// fragment stage is the water entry point.
    pub fn new(format: TextureFormat) -> (w: Water)
        ensures
            w.wf(),
            w.vertex_array@ == water_rest_quad(),
            w.pipeline == scene_pipeline(ShaderEntry::FsMainWater, format),
    {
        let vertex_array: Vec<Vertex> = vec![
            Vertex { pos_x: -1000, pos_y: -5, pos_z: 0, tex_u: 0, tex_v: 500, seed_milli: 0 },
            Vertex { pos_x: 1000, pos_y: -5, pos_z: 0, tex_u: 1000, tex_v: 500, seed_milli: 0 },
            Vertex { pos_x: -1000, pos_y: -1000, pos_z: 0, tex_u: 0, tex_v: 0, seed_milli: 0 },
            Vertex { pos_x: 1000, pos_y: -1000, pos_z: 0, tex_u: 1000, tex_v: 0, seed_milli: 0 },
        ];
        proof {
            assert(vertex_array@ =~= water_rest_quad());
        }
        Water {
            vertex_array,
            indices: make_quad_indices(),
            pipeline: make_scene_pipeline(ShaderEntry::FsMainWater, format),
        }
    }

    /// Rewrites the quad for the given elapsed time: positions and
    /// texture coordinates return to the canonical water quad whatever
    /// they were before, and every vertex's seed becomes the elapsed
    /// milliseconds. The indices and the pipeline are untouched.
    pub fn regen(&mut self, elapsed_milli: u64)
        ensures
            final(self).vertex_array@ == water_quad_at(elapsed_milli),
            final(self).indices == old(self).indices,
            final(self).pipeline == old(self).pipeline,
            old(self).wf() ==> final(self).wf(),
    {
        let vertex_array: Vec<Vertex> = vec![
            Vertex {
                pos_x: -1000,
                pos_y: 0,
                pos_z: 0,
                tex_u: 0,
                tex_v: 500,
                seed_milli: elapsed_milli,
            },
            Vertex {
                pos_x: 1000,
                pos_y: 0,
                pos_z: 0,
                tex_u: 1000,
                tex_v: 500,
                seed_milli: elapsed_milli,
            },
            Vertex {
                pos_x: -1000,
                pos_y: -1000,
                pos_z: 0,
                tex_u: 0,
                tex_v: 0,
                seed_milli: elapsed_milli,
            },
            Vertex {
                pos_x: 1000,
                pos_y: -1000,
                pos_z: 0,
                tex_u: 1000,
                tex_v: 0,
                seed_milli: elapsed_milli,
            },
        ];
        proof {
            assert(vertex_array@ =~= water_quad_at(elapsed_milli));
        }
        self.vertex_array = vertex_array;
    }

    /// Describes one draw of the water quad, regenerating it first for
    /// the given elapsed time: the pass writes into the visible
    /// surface while sampling the offscreen background as its
    /// reflection input, preserves the surface's previous contents,
    /// stores its result, and draws the six quad indices.
    pub fn draw(&mut self, elapsed_milli: u64) -> (p: PassSpec)
        ensures
            p == water_pass(),
            final(self).vertex_array@ == water_quad_at(elapsed_milli),
            final(self).indices == old(self).indices,
            final(self).pipeline == old(self).pipeline,
            old(self).wf() ==> final(self).wf(),
    {
        self.regen(elapsed_milli);
        PassSpec {
            target: RenderTarget::Surface,
            source: SampleSource::Offscreen,
            fragment_entry: ShaderEntry::FsMainWater,
            load_op: LoadOp::Load,
            store: true,
            index_format: IndexFormat::Uint16,
            index_count: 6,
        }
    }
}

} // verus!
