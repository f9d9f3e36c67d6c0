//! The mesh data this core batches: vertices, triangle indices, and the
//! per-item origin and clip data that arrive with them.

use std::sync::Arc;
use vstd::prelude::*;

verus! {

/// A point in 2-D space. Each coordinate is the bit pattern of a 32-bit
/// float; this core never reads the values, it only carries them into the
/// per-item translation.
#[derive(Clone, Copy, PartialEq, Eq, Structural, Debug)]
pub struct Point {
    /// The horizontal coordinate, as a 32-bit float bit pattern.
    pub x: u32,
    /// The vertical coordinate, as a 32-bit float bit pattern.
    pub y: u32,
}

/// An axis-aligned rectangle in integer pixel coordinates, used as the
/// scissor region of every draw of a frame.
#[derive(Clone, Copy, PartialEq, Eq, Structural, Debug)]
pub struct Rectangle {
    /// The left edge, in pixels.
    pub x: u32,
    /// The top edge, in pixels.
    pub y: u32,
    /// The width, in pixels.
    pub width: u32,
    /// The height, in pixels.
    pub height: u32,
}

/// A two-dimensional vertex with a color in linear RGBA.
///
/// Its byte layout is part of the wire contract with the GPU pipeline: the
/// position at byte 0, the color at byte 8, 24 bytes in all. Every field is
/// the bit pattern of a 32-bit float.
#[derive(Clone, Copy, PartialEq, Eq, Debug)]
pub struct Vertex2D {
    /// The vertex position, as 32-bit float bit patterns.
    pub position: [u32; 2],
    /// The vertex color in linear RGBA, as 32-bit float bit patterns.
    pub color: [u32; 4],
}

/// A set of [`Vertex2D`] and indices representing a list of triangles.
#[derive(Clone, Debug)]
pub struct Mesh2D {
    /// The vertices of the mesh.
    pub vertices: Vec<Vertex2D>,
    /// The list of vertex indices that defines the triangles of the mesh.
    ///
    /// This list should always have a length that is a multiple of 3, and
    /// every index should be below the vertex count; this core trusts its
    /// caller for both.
    pub indices: Vec<u32>,
}

/// One entry of a frame's draw list: a mesh and the origin it is drawn at.
///
/// The mesh is shared: one mesh may back several items of the same frame,
/// and frames never mutate it.
#[derive(Clone, Debug)]
pub struct DrawItem {
    /// Where the item's mesh is placed, relative to the frame's transform.
    pub origin: Point,
    /// The triangles to draw.
    pub mesh: Arc<Mesh2D>,
}

} // verus!
