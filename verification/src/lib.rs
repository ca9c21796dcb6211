//! A verified video-encoding session library: colorspace-driven plane
//! sizing, bounds-checked frame buffers, owned encoded-output buffers, and
//! an encoder session that drains its delayed frames through a bounded
//! lookahead queue.

pub mod colorspace;
pub mod encoder;
pub mod nal;
pub mod param;
pub mod picture;
pub mod strings;

pub use colorspace::Colorspace;
pub use encoder::Encoder;
pub use nal::NalData;
pub use param::Param;
pub use picture::Picture;

use vstd::prelude::*;

verus! {

/// The error taxonomy of the library. Every fallible operation reports
/// exactly one of these kinds.
#[derive(Clone, Copy, Debug, PartialEq, Eq, Structural)]
pub enum Error {
    /// A name or value (preset, tune, profile, parameter) was rejected.
    InvalidArgument,
    /// A status not covered by the documented failure cases; a defensive
    /// catch-all, not a specific recoverable condition.
    Unexpected,
    /// Opening the encoder failed for want of memory.
    OutOfMemory,
    /// A frame buffer could not be allocated.
    AllocationFailure,
    /// A header or frame-encode call failed.
    EncodingFailed,
}

} // verus!
