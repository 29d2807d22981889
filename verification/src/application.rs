//! The decisions of the event handler that drives a viewer.
//!
//! The handler owns the window and the viewer. It asks here what an event
//! means once the viewer has seen it, how much time a frame covers, and what
//! to do when a frame could not be shown.

use crate::event::{ElementState, PhysicalKey, PhysicalSize, WindowEvent};
use crate::scene::SurfaceError;
use crate::wgpu_simplified::fps::{elapsed, time_since};
use vstd::prelude::*;

verus! {

/// What the handler does about a window event.
#[derive(Copy, Clone, Debug, PartialEq, Eq, Structural)]
pub enum Directive {
    /// Nothing.
    Ignore,
    /// Leave the event loop.
    Exit,
    /// Resize the viewer.
    Resize(PhysicalSize),
    /// Ask for the next redraw, then update the viewer and render a frame.
    Redraw,
}

/// What the handler does after rendering a frame.
#[derive(Copy, Clone, Debug, PartialEq, Eq)]
pub struct Reaction {
    /// Whether the viewer is resized to its own size, which configures the surface anew.
    pub reconfigure: bool,
    /// Whether the event loop is left.
    pub exit: bool,
    /// The line to print.
    pub message: Option<&'static str>,
}

/// The settings of a viewer and the progress of its start.
#[derive(Copy, Clone, Debug)]
pub struct Application<'a> {
    /// Whether the viewer exists: the event loop has resumed.
    pub started: bool,
    pub sample_count: u32,
    pub colormap_name: &'a str,
    pub wireframe_color: &'a str,
    pub title: &'a str,
    /// The time at which rendering began.
    pub render_start_time: Option<u64>,
}

/// The meaning of `event` for a handler whose viewer exists or not, and has
/// consumed the event or not.
///
/// Before the viewer exists, and for what it consumed, there is nothing to
/// do. A request to close and a press of Escape end the loop. A new size goes
/// to the viewer, and a request to redraw starts a frame.
pub open spec fn directive_for(started: bool, consumed: bool, event: WindowEvent) -> Directive {
    if !started || consumed {
        Directive::Ignore
    } else {
        match event {
            WindowEvent::CloseRequested => Directive::Exit,
            WindowEvent::KeyboardInput {
                physical_key: PhysicalKey::Escape,
                state: ElementState::Pressed,
                ..
            } => Directive::Exit,
            WindowEvent::Resized(size) => Directive::Resize(size),
            WindowEvent::RedrawRequested => Directive::Redraw,
            _ => Directive::Ignore,
        }
    }
}

/// What follows from the outcome of rendering a frame.
///
/// A lost or outdated surface is configured anew. Without memory the program
/// says so and ends. A timeout and any other error are reported, and the next
/// frame is tried.
pub open spec fn reaction_to(outcome: Result<(), SurfaceError>) -> Reaction {
    match outcome {
        Ok(_) => Reaction { reconfigure: false, exit: false, message: None },
        Err(SurfaceError::Lost) | Err(SurfaceError::Outdated) => Reaction {
            reconfigure: true,
            exit: false,
            message: None,
        },
        Err(SurfaceError::OutOfMemory) => Reaction {
            reconfigure: false,
            exit: true,
            message: Some("Out of memory"),
        },
        Err(SurfaceError::Timeout) => Reaction {
            reconfigure: false,
            exit: false,
            message: Some("Surface timeout"),
        },
        Err(SurfaceError::Other) => Reaction {
            reconfigure: false,
            exit: false,
            message: Some("Surface error"),
        },
    }
}

impl<'a> Application<'a> {
    /// The settings of a viewer that has not started.
    pub fn new(
        sample_count: u32,
        colormap_name: &'a str,
        wireframe_color: &'a str,
        title: &'a str,
        render_start_time: Option<u64>,
    ) -> (app: Self)
        ensures
            !app.started,
            app.sample_count == sample_count,
            app.colormap_name == colormap_name,
            app.wireframe_color == wireframe_color,
            app.title == title,
            app.render_start_time == render_start_time,
    {
        Self {
            started: false,
            sample_count,
            colormap_name,
            wireframe_color,
            title,
            render_start_time,
        }
    }

    /// Takes note that the viewer was created at `now`: rendering begins.
    pub fn resumed(&mut self, now: u64)
        ensures
            *final(self) == (Application {
                started: true,
                render_start_time: Some(now),
                ..*old(self)
            }),
    {
        self.started = true;
        self.render_start_time = Some(now);
    }

    /// Says what to do about `event`; `consumed` is the answer of the viewer's
    /// `input` to it, and counts for nothing before the viewer exists.
    pub fn window_event(&self, consumed: bool, event: &WindowEvent) -> (directive: Directive)
        ensures
            directive == directive_for(self.started, consumed, *event),
    {
        if !self.started || consumed {
            return Directive::Ignore;
        }
        match event {
            WindowEvent::CloseRequested => Directive::Exit,
            WindowEvent::KeyboardInput {
                physical_key: PhysicalKey::Escape,
                state: ElementState::Pressed,
                ..
            } => Directive::Exit,
            WindowEvent::Resized(size) => Directive::Resize(*size),
            WindowEvent::RedrawRequested => Directive::Redraw,
            _ => Directive::Ignore,
        }
    }

    /// The time that rendering has run at `now`: none before it began.
    pub fn frame_time(&self, now: u64) -> (dt: u64)
        ensures
            dt == match self.render_start_time {
                Some(start) => elapsed(start, now),
                None => 0,
            },
    {
        match self.render_start_time {
            Some(start) => time_since(start, now),
            None => 0,
        }
    }

    /// Says what to do after rendering a frame ended with `outcome`.
    pub fn frame_rendered(outcome: Result<(), SurfaceError>) -> (reaction: Reaction)
        ensures
            reaction == reaction_to(outcome),
    {
        match outcome {
            Ok(_) => Reaction { reconfigure: false, exit: false, message: None },
            Err(SurfaceError::Lost) | Err(SurfaceError::Outdated) => Reaction {
                reconfigure: true,
                exit: false,
                message: None,
            },
            Err(SurfaceError::OutOfMemory) => Reaction {
                reconfigure: false,
                exit: true,
                message: Some("Out of memory"),
            },
            Err(SurfaceError::Timeout) => Reaction {
                reconfigure: false,
                exit: false,
                message: Some("Surface timeout"),
            },
            Err(SurfaceError::Other) => Reaction {
                reconfigure: false,
                exit: false,
                message: Some("Surface error"),
            },
        }
    }

    /// Whether a redraw is asked for when the event loop is about to wait:
    /// always, once the viewer exists.
    pub fn about_to_wait(&self) -> (redraw: bool)
        ensures
            redraw == self.started,
    {
        self.started
    }
}

} // verus!
