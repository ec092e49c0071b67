//! What can go wrong between the scene and its host. Every failure is final:
//! the scene stops rather than draw to a surface that is not there.

use vstd::prelude::*;

verus! {

/// The kinds of failure.
#[derive(Clone, Copy, Debug, PartialEq, Eq, Structural)]
pub enum ErrorKind {
    /// The host has no surface to draw on.
    SurfaceUnavailable,
    /// The surface gave no GPU context.
    ContextCreationFailed,
    /// A shader stage was refused by the GPU backend.
    ShaderCompileFailed,
    /// The two stages of a program did not link.
    ProgramLinkFailed,
    /// The GPU backend refused a vertex buffer.
    BufferUploadFailed,
}

/// A failure with what the GPU backend said of it.
#[derive(Debug, PartialEq, Eq)]
pub struct Failure {
    pub kind: ErrorKind,
    pub message: String,
}

} // verus!
