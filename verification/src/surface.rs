//! The presentable surface's configuration: size, format and
//! presentation mode, mutated only by a valid resize.

use vstd::prelude::*;

use crate::texture::TextureFormat;
use crate::texture::TextureUsages;

verus! {

/// When a finished frame becomes visible.
#[derive(Clone, Copy, Debug, PartialEq, Eq, Structural)]
pub enum PresentMode {
    Fifo,
    Immediate,
    Mailbox,
}

/// How the surface's alpha channel is composited with the windowing
/// system.
#[derive(Clone, Copy, Debug, PartialEq, Eq, Structural)]
pub enum AlphaMode {
    Auto,
    Opaque,
}

/// The configuration of the presentable surface. Width and height are
/// the window's pixel dimensions; the format is whatever the surface
/// reported as its native swap format.
#[derive(Clone, Copy, Debug, PartialEq, Eq, Structural)]
pub struct SurfaceConfig {
    pub usage: TextureUsages,
    pub format: TextureFormat,
    pub width: u32,
    pub height: u32,
    pub present_mode: PresentMode,
    pub alpha_mode: AlphaMode,
}

/// The configuration chosen at startup: a render-attachment-only
/// surface of the window's size, presented first-in-first-out with
/// automatic alpha compositing.
pub open spec fn initial_config(format: TextureFormat, width: u32, height: u32) -> SurfaceConfig {
    SurfaceConfig {
        usage: TextureUsages {
            copy_src: false,
            copy_dst: false,
            texture_binding: false,
            render_attachment: true,
        },
        format,
        width,
        height,
        present_mode: PresentMode::Fifo,
        alpha_mode: AlphaMode::Auto,
    }
}

impl SurfaceConfig {
    /// Builds the startup configuration.
    pub fn new(format: TextureFormat, width: u32, height: u32) -> (c: SurfaceConfig)
        ensures
            c == initial_config(format, width, height),
    {
        SurfaceConfig {
            usage: TextureUsages {
                copy_src: false,
                copy_dst: false,
                texture_binding: false,
                render_attachment: true,
            },
            format,
            width,
            height,
            present_mode: PresentMode::Fifo,
            alpha_mode: AlphaMode::Auto,
        }
    }
}

} // verus!
