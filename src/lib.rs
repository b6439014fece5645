//! A small rendering engine core driven by guest scripts: vertex and mesh
//! model, mesh import assembly, camera configuration, the engine state with
//! its per-frame counters, the frame-loop decisions and the decoding of
//! guest values into native records.
//!
//! Floating-point quantities are carried as their IEEE-754 single-precision
//! bit patterns (`u32`); the arithmetic on them happens outside this library.

pub mod bits;
pub mod vertex;
pub mod mesh;
pub mod cow;
pub mod math;
pub mod import;
pub mod camera;
pub mod engine;
pub mod frame;
pub mod script;
pub mod vfs;
