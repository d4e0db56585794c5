//! Geometry buffers: the vertex/index layout a draw call reads, reduced in
//! the software backend to the counts that determine draw cost, plus the
//! element-range selection used for partial redraws.

use vstd::prelude::*;
use crate::buffer::BufferUsage;

verus! {

/// Selects all of a geometry buffer or a sub-range of its triangles.
#[derive(Clone, Copy, Debug, PartialEq, Eq, Structural)]
pub enum ElementRange {
    /// Draw every triangle.
    Full,
    /// Draw `amount` triangles starting at `offset`.
    Specific {
        /// First triangle drawn.
        offset: usize,
        /// Number of triangles drawn.
        amount: usize,
    },
}

/// Vertex and index storage for one mesh, as the software backend models
/// it: the counts that determine the cost of a draw.
#[derive(Clone, Copy, Debug, PartialEq, Eq, Structural)]
pub struct GeometryBuffer {
    /// Number of vertices.
    pub vertex_count: usize,
    /// Number of triangles.
    pub triangle_count: usize,
    /// Update pattern hint.
    pub usage: BufferUsage,
}

impl GeometryBuffer {
    /// Builds a geometry buffer from its counts.
    pub fn new(vertex_count: usize, triangle_count: usize, usage: BufferUsage) -> (g:
        GeometryBuffer)
        ensures
            g == (GeometryBuffer { vertex_count, triangle_count, usage }),
    {
        GeometryBuffer { vertex_count, triangle_count, usage }
    }

    /// The unit XY quad every full-screen pass draws: four vertices, two
    /// triangles.
    pub fn unit_xy_quad(usage: BufferUsage) -> (g: GeometryBuffer)
        ensures
            g == (GeometryBuffer { vertex_count: 4usize, triangle_count: 2usize, usage }),
    {
        GeometryBuffer { vertex_count: 4, triangle_count: 2, usage }
    }

    /// How many triangles `range` selects, when it lies inside the buffer.
    pub open spec fn spec_selected(self, range: ElementRange) -> int {
        match range {
            ElementRange::Full => self.triangle_count as int,
            ElementRange::Specific { offset, amount } => amount as int,
        }
    }

    /// True when `range` lies inside the buffer.
    pub open spec fn spec_range_valid(self, range: ElementRange) -> bool {
        match range {
            ElementRange::Full => true,
            ElementRange::Specific { offset, amount } => offset + amount <= self.triangle_count,
        }
    }

    /// True when `range` lies inside the buffer.
    pub fn range_valid(&self, range: ElementRange) -> (r: bool)
        ensures
            r == self.spec_range_valid(range),
    {
        match range {
            ElementRange::Full => true,
            ElementRange::Specific { offset, amount } => {
                offset <= self.triangle_count && amount <= self.triangle_count - offset
            },
        }
    }
}

} // verus!
