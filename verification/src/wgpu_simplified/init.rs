//! The configuration of the surface that a viewer draws to.

use crate::event::PhysicalSize;
use vstd::prelude::*;

verus! {

/// Frames that may be queued for presentation.
pub const FRAME_LATENCY: u32 = 2;

/// How a surface hands out its frames. `F` is the type of a texture format
/// and `A` that of an alpha mode.
#[derive(Copy, Clone, Debug)]
pub struct SurfaceConfiguration<F, A> {
    pub format: F,
    pub width: u32,
    pub height: u32,
    pub alpha_mode: A,
    pub desired_maximum_frame_latency: u32,
}

/// What a viewer knows of its surface once the GPU is set up.
#[derive(Copy, Clone, Debug)]
pub struct InitWgpu<F, A> {
    pub config: SurfaceConfiguration<F, A>,
    pub size: PhysicalSize,
    pub sample_count: u32,
}

impl<F: Copy, A: Copy> InitWgpu<F, A> {
    /// Configures a surface for a window of `size`: with the first of the
    /// formats and the first of the alpha modes that the surface supports,
    /// in the order of its preference.
    pub fn init_wgpu(
        size: PhysicalSize,
        sample_count: u32,
        formats: &Vec<F>,
        alpha_modes: &Vec<A>,
    ) -> (init: Self)
        requires
            formats.len() > 0,
            alpha_modes.len() > 0,
        ensures
            init.config.format == formats[0],
            init.config.width == size.width,
            init.config.height == size.height,
            init.config.alpha_mode == alpha_modes[0],
            init.config.desired_maximum_frame_latency == FRAME_LATENCY,
            init.size == size,
            init.sample_count == sample_count,
    {
        Self {
            config: SurfaceConfiguration {
                format: formats[0],
                width: size.width,
                height: size.height,
                alpha_mode: alpha_modes[0],
                desired_maximum_frame_latency: FRAME_LATENCY,
            },
            size,
            sample_count,
        }
    }
}

} // verus!
