//! Core of a small browser game engine: the cooperative task runtime that the
//! frame loop steps, the per-task polling protocol, the frame-loop decisions,
//! frame timing bookkeeping, the engine's error values and shader sources.

pub mod asrt;
pub mod task;
pub mod err;
pub mod meta;
pub mod event_loop;
pub mod shader;

