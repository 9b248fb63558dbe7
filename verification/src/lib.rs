//! Conway's Game of Life on the GPU, as a compute-shader pipeline hosted in
//! a game engine's render graph.
//!
//! The simulation rule itself lives in a shader with two entry points,
//! "init" and "update", each working on the shared storage texture in 8 by
//! 8 workgroups. This crate holds the logic around those kernels: the
//! configuration and the texture created at startup ([`plugin`]), the pause
//! toggle ([`input`]), the pipeline registry and the per-frame bind group
//! ([`pipeline`]), and the state machine that gates dispatch on
//! asynchronous shader compilation ([`node`]). The engine glue — windowing,
//! the render graph, the GPU — drives these functions once per frame and
//! carries out the dispatches they decide on.

pub mod input;
pub mod node;
pub mod pipeline;
pub mod plugin;
