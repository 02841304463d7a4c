use vstd::prelude::*;

verus! {

/// The failures a pipeline operation can report. Every operation fails fast
/// and hands the error to its caller; nothing is retried.
#[derive(Clone, Copy, Debug, PartialEq, Eq, Structural)]
pub enum PipelineError {
    /// The requested dimensions do not fit in addressable memory.
    Allocation,
    /// The bytes are not a well-formed encoded image.
    Decode,
    /// The filter name is not a registered preset.
    UnknownFilter,
    /// The surface handle is not attached.
    SurfaceUnavailable,
    /// The surface has never been written to.
    EmptySurface,
}

} // verus!
