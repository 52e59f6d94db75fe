//! Failure taxonomy of the pipeline.
//!
//! `NoMatch` is a normal negative outcome, not a fault; device and sample
//! problems are distinct from recognition problems so that a caller can
//! render a specific message for each.

use vstd::prelude::*;

verus! {

/// A failure of the audio input device. Fatal to the current recognition
/// attempt, never to the process.
#[derive(Clone, Copy, Debug, PartialEq, Eq, Structural)]
pub enum DeviceError {
    /// No usable input device is present.
    Unavailable,
    /// The platform refused access to the input device.
    PermissionDenied,
    /// The device failed while capturing.
    Hardware,
}

/// Why a captured sample was refused locally, before any request is made.
#[derive(Clone, Copy, Debug, PartialEq, Eq, Structural)]
pub enum SampleError {
    /// The capture produced no bytes at all.
    Empty,
    /// The capture exceeds the provider's size ceiling.
    Oversized,
}

/// Outcome of a recognition round trip that did not produce a song.
#[derive(Clone, Copy, Debug, PartialEq, Eq, Structural)]
pub enum RecognitionError {
    /// The request could not be transported to the provider or back.
    Network,
    /// The provider answered, but the answer could not be interpreted.
    InvalidResponse,
    /// The provider refused the request (quota, authentication).
    ProviderRejected,
    /// The provider understood the sample and found no matching song.
    /// A normal negative outcome, not a fault.
    NoMatch,
}

/// What a failed recognition attempt reports: enough detail to render a
/// specific, actionable message.
#[derive(Clone, Copy, Debug, PartialEq, Eq, Structural)]
pub enum ErrorKind {
    /// The input device failed during capture.
    Device(DeviceError),
    /// The captured sample was unusable and was never sent.
    Sample(SampleError),
    /// The provider round trip failed, or found no match.
    Recognition(RecognitionError),
}

/// A failure of the persistence backend. Surfaced upward, but the
/// in-memory history keeps working degraded.
#[derive(Clone, Copy, Debug, PartialEq, Eq, Structural)]
pub enum PersistenceError {
    /// The backing store could not be read.
    LoadFailed,
    /// The backing store could not be written.
    SaveFailed,
}

/// Why a playback request could not proceed.
#[derive(Clone, Copy, Debug, PartialEq, Eq, Structural)]
pub enum PlaybackError {
    /// The song carries no preview link at all.
    MissingPreviewLink,
    /// The preview link could not be loaded or buffered.
    LoadFailed,
}

} // verus!
