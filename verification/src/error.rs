//! The single error type of the rendering core. One taxonomy covers backend
//! resource creation, shader reflection lookups and invalid draw
//! configurations; construction-time errors abort the construction of the
//! owning pass, per-frame errors propagate to the frame orchestrator.

use vstd::prelude::*;

verus! {

/// Everything that can go wrong inside the rendering core.
#[derive(Clone, Copy, Debug, PartialEq, Eq, Structural)]
pub enum FrameworkError {
    /// A shader program could not be compiled or linked.
    ShaderCompilationFailed,
    /// A sampler uniform name was not found in a program.
    UniformNotFound,
    /// A uniform block name was not found in a program.
    UniformBlockNotFound,
    /// A resource handle does not refer to a live backend resource.
    InvalidResource,
    /// A texture was requested with unsupported dimensions or level count.
    InvalidTextureSize,
    /// Initial texture data does not match the texture size.
    InvalidTextureData,
    /// A buffer was requested with an unsupported size.
    InvalidBufferSize,
    /// More data was written to a buffer than it can hold.
    BufferOverflow,
    /// A framebuffer was assembled from unusable attachments.
    InvalidAttachment,
    /// A uniform location was used with a program it does not belong to.
    InvalidUniformLocation,
    /// A buffer segment lies outside the bounds of its buffer.
    InvalidBufferSegment,
    /// A draw asked for elements outside the geometry.
    InvalidElementRange,
    /// A blit asked for a channel class that one side does not have.
    ChannelMismatch,
    /// A blit region is empty, flipped, or outside its framebuffer.
    InvalidRegion,
}

} // verus!
