//! Core of a minimal real-time rendering loop: GPU resource wrappers that own
//! native handles, the attribute-rebinding protocol of a vertex layout, the
//! shader compile/link state machine, mesh composition with a loaded/unloaded
//! lifecycle, a renderer that gates draw calls, and a row-major 4x4 transform
//! with a lazily flushed flat form.
//!
//! Native graphics calls never happen here. Every operation that the driver
//! must perform is emitted as a [`context::GlCommand`] into an explicit
//! [`context::GpuContext`], and an unverified executor replays the commands
//! against the native API. The contracts state exactly which commands each
//! operation emits, so properties such as "an unloaded model issues no draw
//! call" are proved rather than observed.

pub mod context;
pub mod gpu;
pub mod input;
pub mod math;
pub mod localstate;
pub mod model;
pub mod obj;
pub mod renderer;
pub mod shader;
