//! GPU data buffers (uniform, vertex, index) as the software backend models
//! them: a capacity in 32-bit words plus the words last written.

use vstd::prelude::*;

verus! {

/// Largest buffer capacity, in 32-bit words, the backend accepts.
pub const MAX_BUFFER_WORDS: usize = 16777216;

/// What a buffer feeds.
#[derive(Clone, Copy, Debug, PartialEq, Eq, Structural)]
pub enum BufferKind {
    /// Shader uniform block storage.
    Uniform,
    /// Vertex attribute storage.
    Vertex,
    /// Triangle index storage.
    Index,
}

/// Update pattern hint handed to the backend.
#[derive(Clone, Copy, Debug, PartialEq, Eq, Structural)]
pub enum BufferUsage {
    /// Written once, drawn many times.
    StaticDraw,
    /// Rewritten every frame by the application.
    StreamCopy,
}

/// Identifies a buffer owned by a [`crate::server::GraphicsServer`].
#[derive(Clone, Copy, Debug, PartialEq, Eq, Structural, Hash)]
pub struct BufferId {
    /// Index of the buffer in the server's buffer list.
    pub index: usize,
}

/// One data buffer as the software backend stores it.
#[derive(Clone, Debug)]
pub struct GpuBuffer {
    /// What the buffer feeds.
    pub kind: BufferKind,
    /// Update pattern hint.
    pub usage: BufferUsage,
    /// Capacity in 32-bit words.
    pub size: usize,
    /// The words last written; never longer than `size`.
    pub data: Vec<u32>,
}

impl GpuBuffer {
    /// Structural soundness of a buffer record.
    pub open spec fn well_formed(self) -> bool {
        &&& 1 <= self.size <= MAX_BUFFER_WORDS
        &&& self.data@.len() <= self.size
    }
}

} // verus!
