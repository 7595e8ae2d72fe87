//! A verified core for a minimal OpenGL quad renderer.
//!
//! The library models the decisions of the renderer — handle lifecycle,
//! shader-program construction with cleanup on failure, geometry
//! serialization, and the per-frame draw plan — as verified functions over
//! plain values. The host shell owns the loaded driver function table and
//! the window; it performs each driver call that the library plans and
//! hands the driver's replies back in.

pub mod commands;
pub mod geometry;
pub mod objects;
pub mod program_build;
pub mod facade;
