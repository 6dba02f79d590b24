//! The frame orchestrator: the scene's top-level state, window
//! resizing, the per-frame plan, and the recovery policy for
//! presentation errors.

use vstd::prelude::*;

use crate::background::Background;
use crate::frame::FramePlan;
use crate::frame::RenderTarget;
use crate::frame::frame_passes;
use crate::frame::offscreen_descriptor;
use crate::surface::SurfaceConfig;
use crate::surface::initial_config;
use crate::texture::SamplerSpec;
use crate::texture::Texture;
use crate::texture::TextureDescriptor;
use crate::texture::TextureFormat;
use crate::texture::TextureUsages;
use crate::texture::scene_sampler;
use crate::texture::make_scene_sampler;
use crate::water::Water;
use crate::water::water_rest_quad;
use crate::water::water_quad_at;

verus! {

/// The recoverable and unrecoverable ways acquiring the next
/// presentable surface texture can fail.
#[derive(Clone, Copy, Debug, PartialEq, Eq, Structural)]
pub enum SurfaceError {
    Timeout,
    Outdated,
    Lost,
    OutOfMemory,
}

/// What the event loop does after a failed frame.
#[derive(Clone, Copy, Debug, PartialEq, Eq, Structural)]
pub enum FrameRecovery {
    /// Reconfigure the surface from the current size and try again on
    /// the next frame.
    Reconfigure,
    /// Terminate the process with the given exit status.
    Exit { code: i32 },
    /// Log the error and skip to the next frame; transient errors
    /// self-heal.
    SkipFrame,
}

/// The recovery owed to each acquisition failure: a lost surface is
/// reconfigured, out of memory terminates the process with the
/// distinguished status, and anything else is logged and skipped.
pub open spec fn recovery_for(e: SurfaceError) -> FrameRecovery {
    match e {
        SurfaceError::Lost => FrameRecovery::Reconfigure,
        SurfaceError::OutOfMemory => (FrameRecovery::Exit { code: 5 }),
        _ => FrameRecovery::SkipFrame,
    }
}

/// Decides how the event loop recovers from a failed surface
/// acquisition.
pub fn handle_surface_error(e: SurfaceError) -> (r: FrameRecovery)
    ensures
        r == recovery_for(e),
{
    match e {
        SurfaceError::Lost => FrameRecovery::Reconfigure,
        SurfaceError::OutOfMemory => FrameRecovery::Exit { code: 5 },
        SurfaceError::Timeout => FrameRecovery::SkipFrame,
        SurfaceError::Outdated => FrameRecovery::SkipFrame,
    }
}

/// The scene's top-level state: the surface configuration, the stored
/// window size, the two renderers, and the sampler the water pass
/// reads the offscreen target through.
#[derive(Clone, Debug)]
pub struct Scene {
    pub config: SurfaceConfig,
    pub width: u32,
    pub height: u32,
    pub background: Background,
    pub sampler: SamplerSpec,
    pub water: Water,
}

impl Scene {
    /// The stored size and the surface configuration agree, both
    /// renderers are well formed and target the surface's format, and
    /// the sampler is the scene's one sampler.
    pub open spec fn wf(self) -> bool {
        &&& self.config.width == self.width
        &&& self.config.height == self.height
        &&& self.background.wf()
        &&& self.water.wf()
        &&& self.background.pipeline.target_format == self.config.format
        &&& self.water.pipeline.target_format == self.config.format
        &&& self.sampler == scene_sampler()
    }

    /// Builds the scene at startup: a surface configuration of the
    /// window's size and the surface's native format, the background
    /// around the loaded floor texture, the water quad at rest, and
    /// the shared sampler.
    pub fn new(format: TextureFormat, width: u32, height: u32, texture: Texture) -> (s: Scene)
        requires
            texture.wf(),
        ensures
            s.wf(),
            s.config == initial_config(format, width, height),
            s.background.texture == texture,
            s.water.vertex_array@ == water_rest_quad(),
    {
        let config = SurfaceConfig::new(format, width, height);
        Scene {
            config,
            width,
            height,
            background: Background::new(texture, format),
            sampler: make_scene_sampler(),
            water: Water::new(format),
        }
    }

    /// Handles a window resize or scale-factor change. A degenerate
    /// size — either dimension zero, a minimized window — changes
    /// nothing and asks for no reconfiguration; a valid size updates
    /// the stored size and the configuration's width and height to
    /// exactly the new values and asks the caller to reconfigure the
    /// surface. Nothing else of the scene changes either way.
    pub fn resize(&mut self, new_width: u32, new_height: u32) -> (reconfigure: bool)
        ensures
            reconfigure == (new_width > 0 && new_height > 0),
            !reconfigure ==> *final(self) == *old(self),
            reconfigure ==> *final(self) == (Scene {
                config: SurfaceConfig { width: new_width, height: new_height, ..old(self).config },
                width: new_width,
                height: new_height,
                ..*old(self)
            }),
            old(self).wf() ==> final(self).wf(),
    {
        if new_height == 0 || new_width == 0 {
            return false;
        }
        self.width = new_width;
        self.height = new_height;
        self.config.width = new_width;
        self.config.height = new_height;
        true
    }

    /// Plans one frame after a surface texture was acquired:
    /// regenerates the water quad for the given elapsed time and
    /// returns the frame plan — an offscreen target of the stored
    /// size, then background into it, background into the surface,
    /// and water into the surface sampling the offscreen copy, in
    /// that order, before the surface is presented. Everything but
    /// the water quad's vertices is left unchanged.
    pub fn render(&mut self, elapsed_milli: u64) -> (p: FramePlan)
        ensures
            p.offscreen == offscreen_descriptor(old(self).width, old(self).height),
            p.passes@ == frame_passes(),
            final(self).water.vertex_array@ == water_quad_at(elapsed_milli),
            final(self).config == old(self).config,
            final(self).width == old(self).width,
            final(self).height == old(self).height,
            final(self).background == old(self).background,
            final(self).sampler == old(self).sampler,
            final(self).water.indices == old(self).water.indices,
            final(self).water.pipeline == old(self).water.pipeline,
            old(self).wf() ==> final(self).wf(),
    {
        let offscreen = TextureDescriptor {
            width: self.width,
            height: self.height,
            mip_level_count: 1,
            sample_count: 1,
            format: TextureFormat::Bgra8UnormSrgb,
            usage: TextureUsages {
                copy_src: true,
                copy_dst: false,
                texture_binding: true,
                render_attachment: true,
            },
        };
        let pass_offscreen = self.background.draw(RenderTarget::Offscreen);
        let pass_surface = self.background.draw(RenderTarget::Surface);
        let pass_water = self.water.draw(elapsed_milli);
        let passes = vec![pass_offscreen, pass_surface, pass_water];
        proof {
            assert(passes@ =~= frame_passes());
        }
        FramePlan { offscreen, passes }
    }
}

} // verus!
