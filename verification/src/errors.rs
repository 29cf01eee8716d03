use vstd::prelude::*;

verus! {

/// Failure taxonomy for a capture run.
///
/// Cancellation (Escape) is not an error: it is a normal termination
/// outcome and never appears here.
#[derive(Clone, Copy, PartialEq, Eq, Structural, Debug)]
pub enum ToolError {
    /// The display server could not be reached.
    Connection,
    /// The server rejected the pixel request, or the reply's byte count is
    /// inconsistent with the requested width, height and depth.
    Capture,
    /// A converted byte sequence cannot form a valid width x height x 3
    /// image buffer.
    BufferConstruction,
    /// Window, pixmap or graphics-context creation or mapping failed.
    ResourceCreation,
    /// The external persistence collaborator failed to write the image.
    Persistence,
}

} // verus!
