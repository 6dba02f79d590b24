//! The shape of one rendered frame: the transient offscreen target and
//! the three render passes drawn into it and into the visible surface.

use vstd::prelude::*;

use crate::pipeline::ShaderEntry;
use crate::texture::TextureDescriptor;
use crate::texture::TextureFormat;
use crate::texture::TextureUsages;

verus! {

/// Where a render pass writes.
#[derive(Clone, Copy, Debug, PartialEq, Eq, Structural)]
pub enum RenderTarget {
    Offscreen,
    Surface,
}

/// Which texture a render pass samples.
#[derive(Clone, Copy, Debug, PartialEq, Eq, Structural)]
pub enum SampleSource {
    FloorTexture,
    Offscreen,
}

/// What happens to the target's previous contents when a pass begins.
#[derive(Clone, Copy, Debug, PartialEq, Eq, Structural)]
pub enum LoadOp {
    Load,
    Clear,
}

/// The width of the indices in the index buffer.
#[derive(Clone, Copy, Debug, PartialEq, Eq, Structural)]
pub enum IndexFormat {
    Uint16,
    Uint32,
}

/// One render pass: where it writes, what it samples, which fragment
/// entry shades it, and the draw call's parameters.
#[derive(Clone, Copy, Debug, PartialEq, Eq, Structural)]
pub struct PassSpec {
    pub target: RenderTarget,
    pub source: SampleSource,
    pub fragment_entry: ShaderEntry,
    pub load_op: LoadOp,
    pub store: bool,
    pub index_format: IndexFormat,
    pub index_count: u32,
}

/// A background pass into the given target: samples the floor texture,
/// preserves the target's previous contents, and draws the six quad
/// indices.
pub open spec fn background_pass(target: RenderTarget) -> PassSpec {
    PassSpec {
        target,
        source: SampleSource::FloorTexture,
        fragment_entry: ShaderEntry::FsMain,
        load_op: LoadOp::Load,
        store: true,
        index_format: IndexFormat::Uint16,
        index_count: 6,
    }
}

/// The water pass: draws into the visible surface while sampling the
/// offscreen copy of the background as its reflection input,
/// preserving the surface's previous contents, with the six quad
/// indices.
pub open spec fn water_pass() -> PassSpec {
    PassSpec {
        target: RenderTarget::Surface,
        source: SampleSource::Offscreen,
        fragment_entry: ShaderEntry::FsMainWater,
        load_op: LoadOp::Load,
        store: true,
        index_format: IndexFormat::Uint16,
        index_count: 6,
    }
}

/// The three passes of every frame, in submission order: background
/// into the offscreen target, background into the surface, then water
/// into the surface.
pub open spec fn frame_passes() -> Seq<PassSpec> {
    seq![
        background_pass(RenderTarget::Offscreen),
        background_pass(RenderTarget::Surface),
        water_pass(),
    ]
}

/// The transient offscreen colour target of one frame: the surface's
/// pixel dimensions, the swap chain's pixel ordering, usable as a
/// render attachment, as a sampled texture and as a copy source.
pub open spec fn offscreen_descriptor(width: u32, height: u32) -> TextureDescriptor {
    TextureDescriptor {
        width,
        height,
        mip_level_count: 1,
        sample_count: 1,
        format: TextureFormat::Bgra8UnormSrgb,
        usage: TextureUsages {
            copy_src: true,
            copy_dst: false,
            texture_binding: true,
            render_attachment: true,
        },
    }
}

/// Everything one frame does after a surface texture was acquired:
/// allocate the offscreen target, run the three passes in order, then
/// present the surface.
#[derive(Clone, Debug)]
pub struct FramePlan {
    pub offscreen: TextureDescriptor,
    pub passes: Vec<PassSpec>,
}

} // verus!
