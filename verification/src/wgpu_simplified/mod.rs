//! Helpers shared by all viewers: the description of a surface's
//! configuration, of render pipelines and of bind groups, and a frame rate
//! counter.

pub mod bind_group;
pub mod fps;
pub mod init;
pub mod pipeline;

pub use bind_group::{
    create_bind_group, create_bind_group_layout, create_bind_group_layout_storage,
    create_bind_group_storage, BindGroupDescriptor, BindGroupLayoutDescriptor,
    BindGroupLayoutEntry, BufferBindingType, ShaderStages,
};
pub use fps::FpsCounter;
pub use init::{InitWgpu, SurfaceConfiguration};
pub use pipeline::{Face, IRenderPipeline, IndexFormat, PrimitiveTopology, RenderPipelinePlan};

use vstd::prelude::*;

verus! {

/// The low 32 bits of `n`.
pub open spec fn low_32_bits(n: int) -> u32 {
    (n % 0x1_0000_0000) as u32
}

/// Reduces `n` to its low 32 bits.
pub fn truncate_to_u32(n: usize) -> (low: u32)
    ensures
        low == low_32_bits(n as int),
        n <= u32::MAX ==> low == n,
{
    let wide: u64 = n as u64;
    (wide % 0x1_0000_0000) as u32
}

} // verus!
