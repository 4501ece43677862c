//! Error kinds for per-frame reconstruction failures.
//!
//! Every error is scoped to a single frame's reconstruction: a failure for
//! one frame never blocks or corrupts the processing of other frames.

use vstd::prelude::*;

verus! {

/// The ways a single frame's reconstruction can fail.
#[derive(Clone, Copy, Debug, PartialEq, Eq, Structural)]
pub enum NlqError {
    /// The BL or EL frame is unavailable for the requested index.
    MissingFrame,
    /// Neither a precomputed RPU list entry nor embedded metadata is
    /// available for the frame.
    MissingMetadata,
    /// The embedded metadata blob does not parse as a valid RPU.
    MalformedMetadata,
    /// The resolved RPU's profile is not 7; the algorithm is defined only
    /// for Profile 7 dual-layer streams.
    UnsupportedProfile,
    /// The resolved RPU declares more than one NLQ pivot.
    UnsupportedPivotCount,
    /// The EL (or BL) clip uses a floating-point sample representation.
    UnsupportedSampleFormat,
    /// A precomputed RPU list is shorter than the requested frame index.
    IndexOutOfRange,
}

impl NlqError {
    /// A human-readable description of the failure.
    pub fn message(&self) -> &'static str {
        match self {
            NlqError::MissingFrame => "couldn't get the BL or EL frame",
            NlqError::MissingMetadata => "no RPU list entry nor embedded metadata for the frame",
            NlqError::MalformedMetadata => "the embedded blob does not parse as a valid RPU",
            NlqError::UnsupportedProfile => "the RPU profile is not 7",
            NlqError::UnsupportedPivotCount => "the RPU declares more than one NLQ pivot",
            NlqError::UnsupportedSampleFormat => "floating point formats are not supported",
            NlqError::IndexOutOfRange => "the RPU list is shorter than the requested frame index",
        }
    }
}

} // verus!
