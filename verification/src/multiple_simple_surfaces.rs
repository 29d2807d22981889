//! The viewer of a grid of animated simple surfaces.
//!
//! One surface is generated anew for every frame and drawn once for each
//! place of the grid. The keyboard cycles through the plot types, surface
//! types and colormap directions and turns the speeds of animation and
//! rotation.

use crate::event::{Key, PhysicalSize, WindowEvent};
use crate::scene::{
    cycle_next, draw_calls, draw_list, plan_resize, resize_plan, step_cycle,
    PlotType, RenderPlan, ResizePlan, SpeedChange, SurfaceError, FPS_INTERVAL,
};
use crate::wgpu_simplified::fps::FpsCounter;
use crate::wgpu_simplified::{low_32_bits, truncate_to_u32};
use vstd::arithmetic::div_mod::lemma_fundamental_div_mod_converse;
use vstd::prelude::*;

verus! {

/// Number of surface types; they are numbered from zero.
pub const SURFACE_TYPES: u32 = 3;

/// Number of colormap directions; they are numbered from zero.
pub const COLORMAP_DIRECTIONS: u32 = 3;

/// Places of the grid along x.
pub const X_NUM: u32 = 100;

/// Places of the grid along z.
pub const Z_NUM: u32 = 100;

/// Bytes of a matrix of four by four 32-bit numbers.
pub const MATRIX_BYTES: u64 = 64;

/// Where the first place of the grid stands along x.
pub const GRID_ORIGIN_X: i64 = -150;

/// Where the first place of the grid stands along z.
pub const GRID_ORIGIN_Z: i64 = -180;

/// Distance between two neighbours of the grid.
pub const GRID_STEP: i64 = 2;

/// Height at which the grid lies.
pub const GRID_HEIGHT: i64 = 2;

/// One place of the grid: its row and column, and where its surface stands.
#[derive(Copy, Clone, Debug, PartialEq, Eq)]
pub struct GridPlace {
    pub i: u32,
    pub j: u32,
    /// The translation along x, y and z.
    pub translation: (i64, i64, i64),
}

/// The place in row `i` and column `j`.
pub open spec fn place_at(i: int, j: int) -> GridPlace {
    GridPlace {
        i: i as u32,
        j: j as u32,
        translation: (
            (GRID_ORIGIN_X + GRID_STEP * i) as i64,
            GRID_HEIGHT,
            (GRID_ORIGIN_Z + GRID_STEP * j) as i64,
        ),
    }
}

/// The places of a grid of `x_num` rows and `z_num` columns, row by row.
pub open spec fn grid_places(x_num: u32, z_num: u32) -> Seq<GridPlace> {
    Seq::new((x_num * z_num) as nat, |k: int| place_at(k / (z_num as int), k % (z_num as int)))
}

/// The integer parameters of a simple surface.
#[derive(Copy, Clone, Debug, PartialEq, Eq, Structural)]
pub struct ISimpleSurface {
    pub surface_type: u32,
    pub colormap_direction: u32,
}

/// The state of the viewer, without its GPU objects and floating point data.
#[derive(Debug)]
pub struct State {
    pub size: PhysicalSize,
    pub sample_count: u32,
    /// The lengths of the index lists of the shaded surface and the wireframe.
    pub indices_lens: [u32; 2],
    pub plot_type: PlotType,
    pub recreate_buffers: bool,
    pub x_num: u32,
    pub z_num: u32,
    /// The number of places of the grid.
    pub objects_count: u32,
    pub simple_surface: ISimpleSurface,
    pub fps_counter: FpsCounter,
}

impl State {
    /// Whether the viewer consumes `event`: it presses one of its keys.
    pub open spec fn handles(event: WindowEvent) -> bool {
        match event.pressed_key() {
            Some(Key::Space) | Some(Key::Control) | Some(Key::Alt) => true,
            Some(Key::Character(c)) => c == 'q' || c == 'a' || c == 'w' || c == 's',
            _ => false,
        }
    }

    /// The state after `event`.
    ///
    /// Space moves to the next plot type, Control to the next surface type and
    /// Alt to the next colormap direction. `q` and `a` turn the speed of
    /// animation, `w` and `s` that of rotation; the state holds neither.
    pub open spec fn after_input(self, event: WindowEvent) -> State {
        let surface = self.simple_surface;
        match event.pressed_key() {
            Some(Key::Space) => State { plot_type: self.plot_type.successor(), ..self },
            Some(Key::Control) => State {
                simple_surface: ISimpleSurface {
                    surface_type: cycle_next(surface.surface_type, SURFACE_TYPES),
                    ..surface
                },
                ..self
            },
            Some(Key::Alt) => State {
                simple_surface: ISimpleSurface {
                    colormap_direction: cycle_next(surface.colormap_direction, COLORMAP_DIRECTIONS),
                    ..surface
                },
                ..self
            },
            _ => self,
        }
    }

    /// The step on a speed that `event` asks for.
    pub open spec fn speed_change_of(event: WindowEvent) -> Option<SpeedChange> {
        match event.pressed_key() {
            Some(Key::Character(c)) => if c == 'q' {
                Some(SpeedChange::AnimationFaster)
            } else if c == 'a' {
                Some(SpeedChange::AnimationSlower)
            } else if c == 'w' {
                Some(SpeedChange::RotationFaster)
            } else if c == 's' {
                Some(SpeedChange::RotationSlower)
            } else {
                None
            },
            _ => None,
        }
    }

    /// Whether surface type and colormap direction are among those that exist.
    pub open spec fn types_in_range(self) -> bool {
        &&& self.simple_surface.surface_type < SURFACE_TYPES
        &&& self.simple_surface.colormap_direction < COLORMAP_DIRECTIONS
    }

    /// This state with another frame rate counter.
    pub open spec fn with_fps_counter(self, fps_counter: FpsCounter) -> State {
        State { fps_counter, ..self }
    }

    /// The state of a viewer that starts at `now` in a window of `size`.
    ///
    /// It shows the shaded surface with the parameters of `surface` on a grid
    /// of `X_NUM` by `Z_NUM` places. `indices` and `indices2` are the lengths
    /// of the index lists of the shaded surface and the wireframe.
    pub fn new(
        size: PhysicalSize,
        sample_count: u32,
        surface: ISimpleSurface,
        indices: usize,
        indices2: usize,
        now: u64,
    ) -> (state: State)
        ensures
            state.size == size,
            state.sample_count == sample_count,
            state.indices_lens[0] == low_32_bits(indices as int),
            state.indices_lens[1] == low_32_bits(indices2 as int),
            state.plot_type == PlotType::ShapeOnly,
            !state.recreate_buffers,
            state.x_num == X_NUM,
            state.z_num == Z_NUM,
            state.objects_count == X_NUM * Z_NUM,
            state.simple_surface == surface,
            state.fps_counter.frames() == Seq::<u64>::empty(),
            state.fps_counter.last_print() == now,
    {
        State {
            size,
            sample_count,
            indices_lens: [truncate_to_u32(indices), truncate_to_u32(indices2)],
            plot_type: PlotType::ShapeOnly,
            recreate_buffers: false,
            x_num: X_NUM,
            z_num: Z_NUM,
            objects_count: X_NUM * Z_NUM,
            simple_surface: surface,
            fps_counter: FpsCounter::new(now),
        }
    }

    /// The size of the window.
    pub fn size(&self) -> (size: PhysicalSize)
        ensures
            size == self.size,
    {
        self.size
    }

    /// Bytes of a buffer that holds one matrix for each place of the grid.
    pub fn instance_buffer_size(&self) -> (bytes: u64)
        ensures
            bytes == MATRIX_BYTES * self.objects_count,
    {
        MATRIX_BYTES * (self.objects_count as u64)
    }

    /// The places of the grid in the order of their instances: row by row.
    pub fn places(&self) -> (places: Vec<GridPlace>)
        ensures
            places@ == grid_places(self.x_num, self.z_num),
    {
        let x_num: u32 = self.x_num;
        let z_num: u32 = self.z_num;
        let mut places: Vec<GridPlace> = Vec::new();
        let mut i: u32 = 0;
        while i < x_num
            invariant
                i <= x_num,
                places@.len() == i * z_num,
                forall|k: int|
                    0 <= k < places@.len() ==> places@[k] == place_at(
                        k / (z_num as int),
                        k % (z_num as int),
                    ),
            decreases x_num - i,
        {
            let mut j: u32 = 0;
            while j < z_num
                invariant
                    i < x_num,
                    j <= z_num,
                    places@.len() == i * z_num + j,
                    forall|k: int|
                        0 <= k < places@.len() ==> places@[k] == place_at(
                            k / (z_num as int),
                            k % (z_num as int),
                        ),
                decreases z_num - j,
            {
                proof {
                    lemma_row_and_column(i as int, j as int, z_num as int);
                }
                places.push(
                    GridPlace {
                        i,
                        j,
                        translation: (
                            GRID_ORIGIN_X + GRID_STEP * (i as i64),
                            GRID_HEIGHT,
                            GRID_ORIGIN_Z + GRID_STEP * (j as i64),
                        ),
                    },
                );
                j += 1;
            }
            assert(i * z_num + z_num == (i + 1) * z_num) by (nonlinear_arith);
            i += 1;
        }
        assert(places@ =~= grid_places(x_num, z_num));
        places
    }

    /// Takes the new size of the window, unless it is empty, and plans the rebuild.
    pub fn resize(&mut self, new_size: PhysicalSize) -> (plan: Option<ResizePlan>)
        ensures
            plan == resize_plan(new_size, old(self).sample_count),
            *final(self) == (State {
                size: if plan is Some {
                    new_size
                } else {
                    old(self).size
                },
                ..*old(self)
            }),
    {
        let plan = plan_resize(new_size, self.sample_count);
        if plan.is_some() {
            self.size = new_size;
        }
        plan
    }

    /// Applies a window event to the state and says whether it was consumed.
    pub fn input(&mut self, event: &WindowEvent) -> (consumed: bool)
        ensures
            consumed == Self::handles(*event),
            *final(self) == old(self).after_input(*event),
    {
        match event.pressed() {
            Some(Key::Space) => {
                self.plot_type = self.plot_type.next();
                true
            },
            Some(Key::Control) => {
                self.simple_surface.surface_type = step_cycle(
                    self.simple_surface.surface_type,
                    SURFACE_TYPES,
                );
                true
            },
            Some(Key::Alt) => {
                self.simple_surface.colormap_direction = step_cycle(
                    self.simple_surface.colormap_direction,
                    COLORMAP_DIRECTIONS,
                );
                true
            },
            Some(Key::Character(c)) => c == 'q' || c == 'a' || c == 'w' || c == 's',
            _ => false,
        }
    }

    /// The step on a speed that `event` asks for.
    pub fn speed_change(event: &WindowEvent) -> (change: Option<SpeedChange>)
        ensures
            change == Self::speed_change_of(*event),
            change is Some ==> Self::handles(*event),
    {
        match event.pressed() {
            Some(Key::Character(c)) => {
                if c == 'q' {
                    Some(SpeedChange::AnimationFaster)
                } else if c == 'a' {
                    Some(SpeedChange::AnimationSlower)
                } else if c == 'w' {
                    Some(SpeedChange::RotationFaster)
                } else if c == 's' {
                    Some(SpeedChange::RotationSlower)
                } else {
                    None
                }
            },
            _ => None,
        }
    }

    /// Takes note of the lengths of the index lists after the buffers were re-created.
    pub fn set_indices_lens(&mut self, indices: usize, indices2: usize)
        ensures
            final(self).indices_lens[0] == low_32_bits(indices as int),
            final(self).indices_lens[1] == low_32_bits(indices2 as int),
            *final(self) == (State { indices_lens: final(self).indices_lens, ..*old(self) }),
    {
        self.indices_lens = [truncate_to_u32(indices), truncate_to_u32(indices2)];
    }

    /// The update before a frame: says whether the vertex and index buffers
    /// are to be re-created, and clears that request. The surface itself is
    /// generated and written for every frame.
    pub fn update(&mut self) -> (recreate: bool)
        ensures
            recreate == old(self).recreate_buffers,
            *final(self) == (State { recreate_buffers: false, ..*old(self) }),
    {
        let recreate = self.recreate_buffers;
        self.recreate_buffers = false;
        recreate
    }

    /// Plans the frame at `now`, given how acquiring it from the surface went.
    ///
    /// Without a frame nothing happens and the error is passed on. With one,
    /// the frame is counted, and the plan holds the draws of the plot type,
    /// each with one instance for every place of the grid.
    pub fn render(&mut self, acquired: Result<(), SurfaceError>, now: u64) -> (outcome: Result<
        RenderPlan,
        SurfaceError,
    >)
        ensures
            acquired matches Err(error) ==> outcome == Err::<RenderPlan, SurfaceError>(error)
                && *final(self) == *old(self),
            acquired is Ok ==> {
                &&& outcome matches Ok(plan)
                &&& plan.multisampled == (old(self).sample_count != 1)
                &&& plan.draws@ == draw_list(
                    old(self).plot_type,
                    old(self).indices_lens,
                    old(self).objects_count,
                )
                &&& plan.fps == old(self).fps_counter.report(now, FPS_INTERVAL)
                &&& old(self).fps_counter.steps_to(final(self).fps_counter, now, FPS_INTERVAL)
                &&& *final(self) == old(self).with_fps_counter(final(self).fps_counter)
            },
    {
        match acquired {
            Err(error) => Err(error),
            Ok(_) => {
                let draws = draw_calls(self.plot_type, self.indices_lens, self.objects_count);
                let fps = self.fps_counter.print_fps(now, FPS_INTERVAL);
                Ok(RenderPlan { multisampled: self.sample_count != 1, draws, fps })
            },
        }
    }
}

/// The instance number `i * z_num + j` belongs to row `i` and column `j`.
proof fn lemma_row_and_column(i: int, j: int, z_num: int)
    requires
        0 <= i,
        0 <= j < z_num,
    ensures
        (i * z_num + j) / z_num == i,
        (i * z_num + j) % z_num == j,
{
    lemma_fundamental_div_mod_converse(i * z_num + j, z_num, i, j);
}

/// Surface type and colormap direction stay among those that exist, whatever
/// the keyboard does, and an event that the viewer does not consume leaves the
/// state as it is.
pub proof fn lemma_input_keeps_types_in_range(state: State, event: WindowEvent)
    ensures
        state.types_in_range() ==> state.after_input(event).types_in_range(),
        !State::handles(event) ==> state.after_input(event) == state,
{
}

} // verus!
