//! Decision logic for interactive 3D surface viewers.
//!
//! The viewers draw a shaded surface and its wireframe with a GPU and let the
//! user steer them from the keyboard. Everything here works on plain values:
//! the embedding program owns the window, the GPU objects and the floating
//! point data, hands events and clock readings in, and carries out the plans
//! that come back.

pub mod application;
pub mod event;
pub mod multiple_simple_surfaces;
pub mod parametric_surface;
pub mod scene;
pub mod settings;
pub mod vertex;
pub mod wgpu_simplified;
