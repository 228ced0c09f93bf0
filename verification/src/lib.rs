//! A deferred rendering core that records its GPU work.
//!
//! Every operation appends commands to a [`context::Context`]; a backend
//! submits the recorded stream to the graphics device. The contracts of the
//! library say exactly which commands an operation records.

pub mod buffer;
pub mod cache;
pub mod camera;
pub mod context;
pub mod deferred_instanced_mesh;
pub mod error;
pub mod geometry;
pub mod instanced_mesh;
pub mod light;
pub mod material;
pub mod math;
pub mod mesh;
pub mod pipeline;
pub mod program;
pub mod shape;
