//! The viewer of one parametric surface.
//!
//! The keyboard cycles through the surface types and colormap directions,
//! changes the resolution of the mesh and the speed of rotation, and switches
//! a mode in which a new surface type is drawn at random every five seconds.

use crate::event::{Key, PhysicalSize, WindowEvent};
use crate::scene::{
    cycle_next, draw_calls, draw_list, plan_resize, resize_plan, step_cycle,
    PlotType, RenderPlan, ResizePlan, SpeedChange, SurfaceError, FPS_INTERVAL,
};
use crate::wgpu_simplified::fps::{elapsed, time_since, FpsCounter, NANOS_PER_SEC};
use rand::Rng;
use crate::wgpu_simplified::{low_32_bits, truncate_to_u32};
use vstd::prelude::*;

verus! {

/// Number of surface types; they are numbered from zero.
pub const SURFACE_TYPES: u32 = 23;

/// Number of colormap directions; they are numbered from zero.
pub const COLORMAP_DIRECTIONS: u32 = 3;

/// The resolution that the keyboard cannot go below.
pub const MIN_RESOLUTION: u32 = 8;

/// Time between two random changes of the surface type.
pub const SHAPE_CHANGE_NANOS: u64 = 5 * NANOS_PER_SEC;

/// The integer parameters of a parametric surface.
#[derive(Copy, Clone, Debug, PartialEq, Eq, Structural)]
pub struct IParametricSurface {
    pub surface_type: u32,
    pub colormap_direction: u32,
    pub u_resolution: u32,
    pub v_resolution: u32,
}

impl IParametricSurface {
    /// The surface that a viewer begins with: type 0 with the other parameters as they are.
    pub open spec fn first(self) -> IParametricSurface {
        IParametricSurface { surface_type: 0, ..self }
    }

    /// The surface that a viewer begins with.
    pub fn to_first(self) -> (surface: IParametricSurface)
        ensures
            surface == self.first(),
    {
        IParametricSurface { surface_type: 0, ..self }
    }
}

/// What the program does between two frames.
#[derive(Copy, Clone, Debug, PartialEq, Eq)]
pub struct UpdatePlan {
    /// The parameters to generate the surface with and build new vertex and
    /// index buffers from, when the buffers are to be re-created. This comes
    /// first.
    pub recreate: Option<IParametricSurface>,
    /// Whether a surface type was drawn at random: the surface is generated
    /// with the state's parameters, written to the vertex buffers, and the
    /// new type is announced. This comes second.
    pub reshaped: bool,
    /// Whether a parameter changed since the last frame: the surface is
    /// generated with the state's parameters and written to the vertex
    /// buffers. This comes last.
    pub rewrite: bool,
}

/// The state of the viewer, without its GPU objects and floating point data.
#[derive(Debug)]
pub struct State {
    pub size: PhysicalSize,
    pub sample_count: u32,
    /// The lengths of the index lists of the shaded surface and the wireframe.
    pub indices_lens: [u32; 2],
    pub plot_type: PlotType,
    pub update_buffers: bool,
    pub recreate_buffers: bool,
    pub random_shape_change: bool,
    /// The time of the last random change of the surface type.
    pub t0: u64,
    pub parametric_surface: IParametricSurface,
    pub fps_counter: FpsCounter,
}

/// The resolution one below `value`, but not below the minimum.
pub open spec fn coarser(value: u32) -> u32 {
    if value <= MIN_RESOLUTION {
        MIN_RESOLUTION
    } else {
        (value - 1) as u32
    }
}

impl State {
    /// Whether the viewer consumes `event`: it presses one of its keys.
    pub open spec fn handles(event: WindowEvent) -> bool {
        match event.pressed_key() {
            Some(Key::Space) | Some(Key::Control) | Some(Key::Shift) | Some(Key::Alt) => true,
            Some(Key::Character(c)) => c == 'q' || c == 'a' || c == 'w' || c == 's' || c == 'e'
                || c == 'd',
            _ => false,
        }
    }

    /// Whether the resolution that `event` asks for can be held: a resolution
    /// at the largest number cannot be raised.
    pub open spec fn input_in_range(self, event: WindowEvent) -> bool {
        match event.pressed_key() {
            Some(Key::Character(c)) => {
                &&& c == 'q' ==> self.parametric_surface.u_resolution < u32::MAX
                &&& c == 'w' ==> self.parametric_surface.v_resolution < u32::MAX
            },
            _ => true,
        }
    }

    /// The state after `event`.
    ///
    /// Space moves to the next plot type. Control moves to the next surface
    /// type and Shift to the next colormap direction, and both ask for the
    /// vertex buffers to be rewritten. Alt switches the random change of shape
    /// on or off. `q` and `a` raise and lower the resolution along u, `w` and
    /// `s` that along v, and ask for the buffers to be re-created. `e` and `d`
    /// turn the speed of rotation, which the state does not hold.
    pub open spec fn after_input(self, event: WindowEvent) -> State {
        let surface = self.parametric_surface;
        match event.pressed_key() {
            Some(Key::Space) => State { plot_type: self.plot_type.successor(), ..self },
            Some(Key::Control) => State {
                parametric_surface: IParametricSurface {
                    surface_type: cycle_next(surface.surface_type, SURFACE_TYPES),
                    ..surface
                },
                update_buffers: true,
                ..self
            },
            Some(Key::Shift) => State {
                parametric_surface: IParametricSurface {
                    colormap_direction: cycle_next(surface.colormap_direction, COLORMAP_DIRECTIONS),
                    ..surface
                },
                update_buffers: true,
                ..self
            },
            Some(Key::Alt) => State { random_shape_change: !self.random_shape_change, ..self },
            Some(Key::Character(c)) => if c == 'q' {
                State {
                    parametric_surface: IParametricSurface {
                        u_resolution: (surface.u_resolution + 1) as u32,
                        ..surface
                    },
                    recreate_buffers: true,
                    ..self
                }
            } else if c == 'a' {
                State {
                    parametric_surface: IParametricSurface {
                        u_resolution: coarser(surface.u_resolution),
                        ..surface
                    },
                    recreate_buffers: true,
                    ..self
                }
            } else if c == 'w' {
                State {
                    parametric_surface: IParametricSurface {
                        v_resolution: (surface.v_resolution + 1) as u32,
                        ..surface
                    },
                    recreate_buffers: true,
                    ..self
                }
            } else if c == 's' {
                State {
                    parametric_surface: IParametricSurface {
                        v_resolution: coarser(surface.v_resolution),
                        ..surface
                    },
                    recreate_buffers: true,
                    ..self
                }
            } else {
                self
            },
            _ => self,
        }
    }

    /// The step on the speed of rotation that `event` asks for.
    pub open spec fn speed_change_of(event: WindowEvent) -> Option<SpeedChange> {
        match event.pressed_key() {
            Some(Key::Character(c)) => if c == 'e' {
                Some(SpeedChange::RotationFaster)
            } else if c == 'd' {
                Some(SpeedChange::RotationSlower)
            } else {
                None
            },
            _ => None,
        }
    }

    /// Whether surface type and colormap direction are among those that exist.
    pub open spec fn types_in_range(self) -> bool {
        &&& self.parametric_surface.surface_type < SURFACE_TYPES
        &&& self.parametric_surface.colormap_direction < COLORMAP_DIRECTIONS
    }

    /// Whether a random change of the surface type is due at `now`: the mode
    /// is on and five seconds have passed since the last change.
    pub open spec fn shape_change_due(self, now: u64) -> bool {
        self.random_shape_change && elapsed(self.t0, now) >= SHAPE_CHANGE_NANOS
    }

    /// The plan of the update at `now`.
    pub open spec fn update_plan(self, now: u64) -> UpdatePlan {
        UpdatePlan {
            recreate: if self.recreate_buffers {
                Some(self.parametric_surface)
            } else {
                None
            },
            reshaped: self.shape_change_due(now),
            rewrite: self.update_buffers,
        }
    }

    /// The state after the update at `now`, where `drawn` is the surface type
    /// that a random change moves to.
    pub open spec fn after_update(self, now: u64, drawn: u32) -> State {
        if self.shape_change_due(now) {
            State {
                recreate_buffers: false,
                update_buffers: false,
                t0: now,
                parametric_surface: IParametricSurface {
                    surface_type: drawn,
                    ..self.parametric_surface
                },
                ..self
            }
        } else {
            State { recreate_buffers: false, update_buffers: false, ..self }
        }
    }

    /// This state with another frame rate counter.
    pub open spec fn with_fps_counter(self, fps_counter: FpsCounter) -> State {
        State { fps_counter, ..self }
    }

    /// The state of a viewer that starts at `now` in a window of `size`.
    ///
    /// It shows the shaded surface of type 0 with the other parameters as in
    /// `surface`, and changes the type at random. `indices` and `indices2`
    /// are the lengths of the index lists of the shaded surface and the
    /// wireframe.
    pub fn new(
        size: PhysicalSize,
        sample_count: u32,
        surface: IParametricSurface,
        indices: usize,
        indices2: usize,
        now: u64,
    ) -> (state: State)
        ensures
            state.size == size,
            state.sample_count == sample_count,
            state.indices_lens[0] == low_32_bits(indices as int),
            state.indices_lens[1] == low_32_bits(indices2 as int),
            state.plot_type == PlotType::ShapeOnly,
            !state.update_buffers,
            !state.recreate_buffers,
            state.random_shape_change,
            state.t0 == now,
            state.parametric_surface == surface.first(),
            state.fps_counter.frames() == Seq::<u64>::empty(),
            state.fps_counter.last_print() == now,
    {
        State {
            size,
            sample_count,
            indices_lens: [truncate_to_u32(indices), truncate_to_u32(indices2)],
            plot_type: PlotType::ShapeOnly,
            update_buffers: false,
            recreate_buffers: false,
            random_shape_change: true,
            t0: now,
            parametric_surface: surface.to_first(),
            fps_counter: FpsCounter::new(now),
        }
    }

    /// The size of the window.
    pub fn size(&self) -> (size: PhysicalSize)
        ensures
            size == self.size,
    {
        self.size
    }

    /// Takes the new size of the window, unless it is empty, and plans the rebuild.
    pub fn resize(&mut self, new_size: PhysicalSize) -> (plan: Option<ResizePlan>)
        ensures
            plan == resize_plan(new_size, old(self).sample_count),
            *final(self) == (State {
                size: if plan is Some {
                    new_size
                } else {
                    old(self).size
                },
                ..*old(self)
            }),
    {
        let plan = plan_resize(new_size, self.sample_count);
        if plan.is_some() {
            self.size = new_size;
        }
        plan
    }

    /// Whether `input` can take `event` in this state.
    pub fn accepts(&self, event: &WindowEvent) -> (accepted: bool)
        ensures
            accepted == self.input_in_range(*event),
    {
        match event.pressed() {
            Some(Key::Character(c)) => {
                if c == 'q' {
                    self.parametric_surface.u_resolution < u32::MAX
                } else if c == 'w' {
                    self.parametric_surface.v_resolution < u32::MAX
                } else {
                    true
                }
            },
            _ => true,
        }
    }

    /// Applies a window event to the state and says whether it was consumed.
    pub fn input(&mut self, event: &WindowEvent) -> (consumed: bool)
        requires
            old(self).input_in_range(*event),
        ensures
            consumed == Self::handles(*event),
            *final(self) == old(self).after_input(*event),
    {
        match event.pressed() {
            Some(Key::Space) => {
                self.plot_type = self.plot_type.next();
                true
            },
            Some(Key::Control) => {
                self.parametric_surface.surface_type = step_cycle(
                    self.parametric_surface.surface_type,
                    SURFACE_TYPES,
                );
                self.update_buffers = true;
                true
            },
            Some(Key::Shift) => {
                self.parametric_surface.colormap_direction = step_cycle(
                    self.parametric_surface.colormap_direction,
                    COLORMAP_DIRECTIONS,
                );
                self.update_buffers = true;
                true
            },
            Some(Key::Alt) => {
                self.random_shape_change = !self.random_shape_change;
                true
            },
            Some(Key::Character(c)) => {
                if c == 'q' {
                    self.parametric_surface.u_resolution += 1;
                    self.recreate_buffers = true;
                    true
                } else if c == 'a' {
                    self.parametric_surface.u_resolution = lower(
                        self.parametric_surface.u_resolution,
                    );
                    self.recreate_buffers = true;
                    true
                } else if c == 'w' {
                    self.parametric_surface.v_resolution += 1;
                    self.recreate_buffers = true;
                    true
                } else if c == 's' {
                    self.parametric_surface.v_resolution = lower(
                        self.parametric_surface.v_resolution,
                    );
                    self.recreate_buffers = true;
                    true
                } else {
                    c == 'e' || c == 'd'
                }
            },
            _ => false,
        }
    }

    /// The step on the speed of rotation that `event` asks for.
    pub fn speed_change(event: &WindowEvent) -> (change: Option<SpeedChange>)
        ensures
            change == Self::speed_change_of(*event),
            change is Some ==> Self::handles(*event),
    {
        match event.pressed() {
            Some(Key::Character(c)) => {
                if c == 'e' {
                    Some(SpeedChange::RotationFaster)
                } else if c == 'd' {
                    Some(SpeedChange::RotationSlower)
                } else {
                    None
                }
            },
            _ => None,
        }
    }

    /// Takes note of the lengths of the index lists after the buffers were re-created.
    pub fn set_indices_lens(&mut self, indices: usize, indices2: usize)
        ensures
            final(self).indices_lens[0] == low_32_bits(indices as int),
            final(self).indices_lens[1] == low_32_bits(indices2 as int),
            *final(self) == (State { indices_lens: final(self).indices_lens, ..*old(self) }),
    {
        self.indices_lens = [truncate_to_u32(indices), truncate_to_u32(indices2)];
    }

    /// The update at `now` with `drawn` as the surface type of a random
    /// change: answers with the plan and clears the requests that it serves.
    pub fn update_with(&mut self, now: u64, drawn: u32) -> (plan: UpdatePlan)
        ensures
            plan == old(self).update_plan(now),
            *final(self) == old(self).after_update(now, drawn),
    {
        let due = self.random_shape_change && time_since(self.t0, now) >= SHAPE_CHANGE_NANOS;
        let plan = UpdatePlan {
            recreate: if self.recreate_buffers {
                Some(self.parametric_surface)
            } else {
                None
            },
            reshaped: due,
            rewrite: self.update_buffers,
        };
        self.recreate_buffers = false;
        if due {
            self.parametric_surface.surface_type = drawn;
            self.t0 = now;
        }
        self.update_buffers = false;
        plan
    }

    /// The update at `now`. Where a random change is due, the surface type is
    /// drawn from all surface types.
    pub fn update(&mut self, now: u64) -> (plan: UpdatePlan)
        ensures
            plan == old(self).update_plan(now),
            exists|drawn: u32|
                drawn < SURFACE_TYPES && *final(self) == #[trigger] old(self).after_update(
                    now,
                    drawn,
                ),
    {
        let due = self.random_shape_change && time_since(self.t0, now) >= SHAPE_CHANGE_NANOS;
        let drawn: u32 = if due {
            random_in(0, SURFACE_TYPES - 1)
        } else {
            0
        };
        self.update_with(now, drawn)
    }

    /// Plans the frame at `now`, given how acquiring it from the surface went.
    ///
    /// Without a frame nothing happens and the error is passed on. With one,
    /// the frame is counted, and the plan holds the draws of the plot type.
    pub fn render(&mut self, acquired: Result<(), SurfaceError>, now: u64) -> (outcome: Result<
        RenderPlan,
        SurfaceError,
    >)
        ensures
            acquired matches Err(error) ==> outcome == Err::<RenderPlan, SurfaceError>(error)
                && *final(self) == *old(self),
            acquired is Ok ==> {
                &&& outcome matches Ok(plan)
                &&& plan.multisampled == (old(self).sample_count != 1)
                &&& plan.draws@ == draw_list(old(self).plot_type, old(self).indices_lens, 1)
                &&& plan.fps == old(self).fps_counter.report(now, FPS_INTERVAL)
                &&& old(self).fps_counter.steps_to(final(self).fps_counter, now, FPS_INTERVAL)
                &&& *final(self) == old(self).with_fps_counter(final(self).fps_counter)
            },
    {
        match acquired {
            Err(error) => Err(error),
            Ok(_) => {
                let draws = draw_calls(self.plot_type, self.indices_lens, 1);
                let fps = self.fps_counter.print_fps(now, FPS_INTERVAL);
                Ok(RenderPlan { multisampled: self.sample_count != 1, draws, fps })
            },
        }
    }
}

/// Surface type and colormap direction stay among those that exist: neither
/// the keyboard nor an update with a surface type drawn from all of them
/// leads out of them.
pub proof fn lemma_types_stay_in_range(state: State, event: WindowEvent, now: u64, drawn: u32)
    requires
        state.types_in_range(),
        drawn < SURFACE_TYPES,
    ensures
        state.after_input(event).types_in_range(),
        state.after_update(now, drawn).types_in_range(),
{
}

/// The keyboard never takes a resolution below the minimum once it is there,
/// and lowering a resolution never raises it.
pub proof fn lemma_resolution_floor(state: State, event: WindowEvent)
    requires
        state.input_in_range(event),
    ensures
        state.parametric_surface.u_resolution >= MIN_RESOLUTION ==> state.after_input(
            event,
        ).parametric_surface.u_resolution >= MIN_RESOLUTION,
        state.parametric_surface.v_resolution >= MIN_RESOLUTION ==> state.after_input(
            event,
        ).parametric_surface.v_resolution >= MIN_RESOLUTION,
        coarser(state.parametric_surface.u_resolution) >= MIN_RESOLUTION,
        coarser(state.parametric_surface.v_resolution) >= MIN_RESOLUTION,
{
}

/// An event that the viewer does not consume leaves the state as it is.
pub proof fn lemma_unhandled_input_changes_nothing(state: State, event: WindowEvent)
    requires
        !State::handles(event),
    ensures
        state.after_input(event) == state,
{
}

/// The resolution one below `value`, but not below the minimum.
fn lower(value: u32) -> (lowered: u32)
    ensures
        lowered == coarser(value),
{
    if value <= MIN_RESOLUTION {
        MIN_RESOLUTION
    } else {
        value - 1
    }
}

/// Draws a number with `rand::Rng::random_range` from the generator of the
/// current thread, `rand::rng`. The number lies in the range, both ends
/// included; nothing more is known of it. The call panics on an empty range,
/// so `low` may not exceed `high`. It also fails where the operating system
/// has no seed for the generator, which no argument decides.
#[verifier::external_body]
fn random_in(low: u32, high: u32) -> (drawn: u32)
    requires
        low <= high,
    ensures
        low <= drawn <= high,
{
    rand::rng().random_range(low..=high)
}

} // verus!
