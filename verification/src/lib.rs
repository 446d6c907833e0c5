//! The bookkeeping of a two-dimensional particle simulation: particles that are
//! pulled about by gravity wells, the wells that the user places, drags and removes,
//! and the arrays from which a frame is drawn.
//!
//! The crate stores coordinates and never calculates with them: the scalar types of
//! positions and vertices are parameters, and whatever is measured on them (which
//! well a click hits, where a particle is after a time step, where its trail ends)
//! is handed in by the caller.

pub mod color;
pub mod gravity_well;
pub mod laws;
pub mod particle;
pub mod purge;
pub mod renderer;
pub mod rng;
pub mod selection;
pub mod simulation;
pub mod texture;
pub mod webgl_helpers;

pub use color::Color;
pub use gravity_well::GravityWell;
pub use particle::Particle;
pub use renderer::Renderer;
pub use simulation::WasmApp;
