//! Deterministic core of an interactive particle scene: a field of particles
//! that bounce within the viewport, a control circle that the pointer can
//! drag, a viewport that knows its device pixel ratio, a planner of GPU
//! frames, and the loop that drives them.
//!
//! The scene does no input or output. The host hands it events and refresh
//! signals as plain values; the scene answers with its new state and with
//! plain commands for the host to carry out on the GPU.
//!
//! All coordinates are fixed-point integers (see [`fixed`]), so every step of
//! the simulation is exact and reproducible. Each type has a mathematical
//! model, its view, and every function is proved to do to the model what its
//! contract says; the laws that relate several functions are stated and
//! proved as `lemma_` functions beside the models they speak of.
//!
//! - [`fixed`]: fixed-point scaling, rounding, interpolation and sampling
//! - [`viewport`]: physical size from logical size and device pixel ratio
//! - [`particles`]: the particle field and its tick
//! - [`circle`]: the control circle and its hit test
//! - [`drag`]: the drag gesture
//! - [`programs`]: shader sources, build verdicts and the program cache
//! - [`renderer`]: the commands of one frame
//! - [`frame_loop`]: when to tick and when to register again
//! - [`world`]: the owner of all state, and what events and ticks do to it
//! - [`error`]: the kinds of failure

pub mod circle;
pub mod drag;
pub mod error;
pub mod fixed;
pub mod frame_loop;
pub mod particles;
pub mod programs;
pub mod renderer;
pub mod viewport;
pub mod world;
