//! The description of a render pipeline.

use vstd::prelude::*;

verus! {

/// How vertices are assembled into primitives.
#[derive(Copy, Clone, Debug, PartialEq, Eq, Structural)]
pub enum PrimitiveTopology {
    PointList,
    LineList,
    LineStrip,
    TriangleList,
    TriangleStrip,
}

/// The width of an index.
#[derive(Copy, Clone, Debug, PartialEq, Eq, Structural)]
pub enum IndexFormat {
    Uint16,
    Uint32,
}

/// A side of a triangle.
#[derive(Copy, Clone, Debug, PartialEq, Eq, Structural)]
pub enum Face {
    Front,
    Back,
}

/// The wishes for a render pipeline. `S` is the type of a handle to a
/// shader module and `L` that of a handle to a pipeline layout.
///
/// `shader`, where it is set, serves as both vertex and fragment shader.
#[derive(Copy, Clone, Debug)]
pub struct IRenderPipeline<'a, S, L> {
    pub shader: Option<S>,
    pub vs_shader: Option<S>,
    pub fs_shader: Option<S>,
    pub pipeline_layout: Option<L>,
    pub topology: PrimitiveTopology,
    pub strip_index_format: Option<IndexFormat>,
    pub cull_mode: Option<Face>,
    pub is_depth_stencil: bool,
    pub vs_entry: &'a str,
    pub fs_entry: &'a str,
}

/// A render pipeline as it is created.
#[derive(Copy, Clone, Debug)]
pub struct RenderPipelinePlan<'a, S, L> {
    pub label: &'static str,
    pub layout: L,
    pub vertex_module: S,
    pub vertex_entry: &'a str,
    pub fragment_module: S,
    pub fragment_entry: &'a str,
    pub topology: PrimitiveTopology,
    pub strip_index_format: Option<IndexFormat>,
    /// Whether fragments are tested against, and written to, a depth texture.
    pub depth_stencil: bool,
    /// Samples per pixel.
    pub sample_count: u32,
}

impl<'a, S, L> Default for IRenderPipeline<'a, S, L> {
    /// A list of triangles with a depth test, no shader and no layout, and
    /// the entry points `vs_main` and `fs_main`.
    fn default() -> (pipeline: Self)
        ensures
            pipeline.shader is None,
            pipeline.vs_shader is None,
            pipeline.fs_shader is None,
            pipeline.pipeline_layout is None,
            pipeline.topology == PrimitiveTopology::TriangleList,
            pipeline.strip_index_format is None,
            pipeline.cull_mode is None,
            pipeline.is_depth_stencil,
            pipeline.vs_entry@ == "vs_main"@,
            pipeline.fs_entry@ == "fs_main"@,
    {
        Self {
            shader: None,
            vs_shader: None,
            fs_shader: None,
            pipeline_layout: None,
            topology: PrimitiveTopology::TriangleList,
            strip_index_format: None,
            cull_mode: None,
            is_depth_stencil: true,
            vs_entry: "vs_main",
            fs_entry: "fs_main",
        }
    }
}

impl<'a, S: Copy, L: Copy> IRenderPipeline<'a, S, L> {
    /// The vertex shader in use: `shader` where it is set, else `vs_shader`.
    pub open spec fn vertex_shader(self) -> Option<S> {
        if self.shader is Some {
            self.shader
        } else {
            self.vs_shader
        }
    }

    /// The fragment shader in use: `shader` where it is set, else `fs_shader`.
    pub open spec fn fragment_shader(self) -> Option<S> {
        if self.shader is Some {
            self.shader
        } else {
            self.fs_shader
        }
    }

    /// Whether a pipeline can be created: there is a layout, and a shader for each of the two stages.
    pub open spec fn complete(self) -> bool {
        &&& self.pipeline_layout is Some
        &&& self.vertex_shader() is Some
        &&& self.fragment_shader() is Some
    }

    /// Whether a pipeline can be created.
    pub fn is_complete(&self) -> (complete: bool)
        ensures
            complete == self.complete(),
    {
        self.pipeline_layout.is_some() && (self.shader.is_some() || (self.vs_shader.is_some()
            && self.fs_shader.is_some()))
    }

    /// Settles which shaders are in use and describes the pipeline for a
    /// target with `sample_count` samples per pixel. The side to cull is not
    /// part of it: no side is culled.
    pub fn new(&mut self, sample_count: u32) -> (plan: RenderPipelinePlan<'a, S, L>)
        requires
            old(self).complete(),
        ensures
            *final(self) == (IRenderPipeline {
                vs_shader: old(self).vertex_shader(),
                fs_shader: old(self).fragment_shader(),
                ..*old(self)
            }),
            plan.label@ == "Render Pipeline"@,
            Some(plan.layout) == old(self).pipeline_layout,
            Some(plan.vertex_module) == old(self).vertex_shader(),
            plan.vertex_entry == old(self).vs_entry,
            Some(plan.fragment_module) == old(self).fragment_shader(),
            plan.fragment_entry == old(self).fs_entry,
            plan.topology == old(self).topology,
            plan.strip_index_format == old(self).strip_index_format,
            plan.depth_stencil == old(self).is_depth_stencil,
            plan.sample_count == sample_count,
    {
        if self.shader.is_some() {
            self.vs_shader = self.shader;
            self.fs_shader = self.shader;
        }
        RenderPipelinePlan {
            label: "Render Pipeline",
            layout: self.pipeline_layout.unwrap(),
            vertex_module: self.vs_shader.unwrap(),
            vertex_entry: self.vs_entry,
            fragment_module: self.fs_shader.unwrap(),
            fragment_entry: self.fs_entry,
            topology: self.topology,
            strip_index_format: self.strip_index_format,
            depth_stencil: self.is_depth_stencil,
            sample_count,
        }
    }
}

} // verus!
