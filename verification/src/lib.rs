//! Render-plan core of a real-time image shader viewer.
//!
//! The crate decides what a frame consists of — which texture to upload, which
//! bytes go into the vertex and uniform buffers, and which draw commands are
//! issued in which order — and leaves talking to the GPU to its host.

pub mod controls;
pub mod effect;
pub mod geometry;
pub mod jpeg;
pub mod layout;
pub mod parameters;
pub mod pipeline;
pub mod scene;
pub mod surface;
pub mod texture;
