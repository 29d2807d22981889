//! What the viewers have in common: the plot type, the plan of a frame,
//! resizing, and the knobs that the keyboard turns.

use crate::event::PhysicalSize;
use vstd::prelude::*;

verus! {

/// Which of the two renderings of a surface a frame shows.
#[derive(Copy, Clone, Debug, PartialEq, Eq, Structural)]
pub enum PlotType {
    Both,
    ShapeOnly,
    WireframeOnly,
}

impl PlotType {
    /// The plot type that follows this one in the cycle
    /// shape only, wireframe only, both.
    pub open spec fn successor(self) -> PlotType {
        match self {
            PlotType::Both => PlotType::ShapeOnly,
            PlotType::ShapeOnly => PlotType::WireframeOnly,
            PlotType::WireframeOnly => PlotType::Both,
        }
    }

    /// Whether the shaded surface is drawn.
    pub open spec fn shows_shape(self) -> bool {
        self != PlotType::WireframeOnly
    }

    /// Whether the wireframe is drawn.
    pub open spec fn shows_wireframe(self) -> bool {
        self != PlotType::ShapeOnly
    }

    /// The plot type that follows this one in the cycle.
    pub fn next(self) -> (following: PlotType)
        ensures
            following == self.successor(),
    {
        match self {
            PlotType::Both => PlotType::ShapeOnly,
            PlotType::ShapeOnly => PlotType::WireframeOnly,
            PlotType::WireframeOnly => PlotType::Both,
        }
    }
}

/// Three turns of the cycle lead back to where they began, and fewer do not.
pub proof fn lemma_plot_type_cycle(plot_type: PlotType)
    ensures
        plot_type.successor() != plot_type,
        plot_type.successor().successor() != plot_type,
        plot_type.successor().successor().successor() == plot_type,
{
}

/// One indexed draw: which pipeline, buffers and bind groups to set, by their
/// places in the viewer's lists, and how much to draw.
#[derive(Copy, Clone, Debug, PartialEq, Eq)]
pub struct DrawCall {
    pub pipeline: usize,
    pub vertex_buffer: usize,
    pub index_buffer: usize,
    /// The bind groups for slots 0 and 1.
    pub bind_groups: (usize, usize),
    pub index_count: u32,
    pub instance_count: u32,
}

/// The draw of the shaded surface.
pub open spec fn shape_draw(indices_lens: [u32; 2], instance_count: u32) -> DrawCall {
    DrawCall {
        pipeline: 0,
        vertex_buffer: 0,
        index_buffer: 0,
        bind_groups: (0, 1),
        index_count: indices_lens[0],
        instance_count,
    }
}

/// The draw of the wireframe.
pub open spec fn wireframe_draw(indices_lens: [u32; 2], instance_count: u32) -> DrawCall {
    DrawCall {
        pipeline: 1,
        vertex_buffer: 1,
        index_buffer: 1,
        bind_groups: (2, 3),
        index_count: indices_lens[1],
        instance_count,
    }
}

/// The draws of a frame, in order: the shaded surface where the plot type
/// shows it, then the wireframe where the plot type shows it.
pub open spec fn draw_list(plot_type: PlotType, indices_lens: [u32; 2], instance_count: u32) -> Seq<
    DrawCall,
> {
    let shape = if plot_type.shows_shape() {
        seq![shape_draw(indices_lens, instance_count)]
    } else {
        Seq::empty()
    };
    let wireframe = if plot_type.shows_wireframe() {
        seq![wireframe_draw(indices_lens, instance_count)]
    } else {
        Seq::empty()
    };
    shape + wireframe
}

/// Lists the draws of a frame.
pub fn draw_calls(plot_type: PlotType, indices_lens: [u32; 2], instance_count: u32) -> (draws: Vec<
    DrawCall,
>)
    ensures
        draws@ == draw_list(plot_type, indices_lens, instance_count),
{
    let mut draws: Vec<DrawCall> = Vec::new();
    match plot_type {
        PlotType::WireframeOnly => {},
        _ => {
            draws.push(
                DrawCall {
                    pipeline: 0,
                    vertex_buffer: 0,
                    index_buffer: 0,
                    bind_groups: (0, 1),
                    index_count: indices_lens[0],
                    instance_count,
                },
            );
        },
    }
    match plot_type {
        PlotType::ShapeOnly => {},
        _ => {
            draws.push(
                DrawCall {
                    pipeline: 1,
                    vertex_buffer: 1,
                    index_buffer: 1,
                    bind_groups: (2, 3),
                    index_count: indices_lens[1],
                    instance_count,
                },
            );
        },
    }
    assert(draws@ =~= draw_list(plot_type, indices_lens, instance_count));
    draws
}

/// The plan of one frame.
#[derive(Clone, Debug, PartialEq, Eq)]
pub struct RenderPlan {
    /// Whether the color target is the multisampled texture, resolved into the
    /// frame, rather than the frame itself.
    pub multisampled: bool,
    pub draws: Vec<DrawCall>,
    /// The frame rate to print, when a report is due.
    pub fps: Option<usize>,
}

/// Why no frame could be acquired from the surface.
#[derive(Copy, Clone, Debug, PartialEq, Eq, Structural)]
pub enum SurfaceError {
    Timeout,
    Outdated,
    Lost,
    OutOfMemory,
    Other,
}

/// What to rebuild after the window took a new size.
#[derive(Copy, Clone, Debug, PartialEq, Eq)]
pub struct ResizePlan {
    /// The size to configure the surface, the projection and the depth texture for.
    pub size: PhysicalSize,
    /// Whether the multisampled texture is rebuilt too.
    pub rebuild_msaa: bool,
}

/// The plan for a new window size: none for an empty window; otherwise the
/// multisampled texture is rebuilt where more than one sample is taken.
pub open spec fn resize_plan(new_size: PhysicalSize, sample_count: u32) -> Option<ResizePlan> {
    if new_size.width > 0 && new_size.height > 0 {
        Some(ResizePlan { size: new_size, rebuild_msaa: sample_count > 1 })
    } else {
        None
    }
}

/// Plans the rebuild for a new window size.
pub fn plan_resize(new_size: PhysicalSize, sample_count: u32) -> (plan: Option<ResizePlan>)
    ensures
        plan == resize_plan(new_size, sample_count),
{
    if new_size.width > 0 && new_size.height > 0 {
        Some(ResizePlan { size: new_size, rebuild_msaa: sample_count > 1 })
    } else {
        None
    }
}

/// Seconds between two reports of the frame rate.
pub const FPS_INTERVAL: u64 = 5;

/// The value that follows `value` in the cycle `0, 1, .., modulus - 1`.
pub open spec fn cycle_next(value: u32, modulus: u32) -> u32 {
    ((value + 1) % (modulus as int)) as u32
}

/// The value that follows `value` in the cycle `0, 1, .., modulus - 1`.
pub fn step_cycle(value: u32, modulus: u32) -> (following: u32)
    requires
        modulus > 0,
    ensures
        following == cycle_next(value, modulus),
        following < modulus,
{
    ((value as u64 + 1) % (modulus as u64)) as u32
}

/// A step on one of the speed knobs.
#[derive(Copy, Clone, Debug, PartialEq, Eq, Structural)]
pub enum SpeedChange {
    RotationFaster,
    RotationSlower,
    AnimationFaster,
    AnimationSlower,
}

} // verus!
