//! Batching core for rendering lists of 2-D triangle meshes.
//!
//! The library coalesces an arbitrary number of independently sized meshes
//! into single growable vertex, index and uniform buffers, computes the byte
//! offsets the GPU needs to locate each mesh's data, and records the frame's
//! copy and draw commands as plain data. Submitting those commands to a GPU
//! device is left to the caller.

pub mod batch;
pub mod buffer;
pub mod encode;
pub mod mesh;
pub mod pipeline;
pub mod shader;
pub mod transform;
