//! Error taxonomy for the panel driver.

use vstd::prelude::*;

verus! {

/// Every failure the driver distinguishes.
///
/// `MalformedLayout` is fatal at startup: the device's layout report could not
/// be turned into a valid `Layout`. `FrameTooLarge` and `InvalidAssignment`
/// are caller contract violations caught by fail-fast validation before any
/// bytes are produced. `TransmissionFailure` is a recoverable per-tick error:
/// the tick is skipped and the loop continues.
#[derive(Clone, Copy, Debug, PartialEq, Eq, Structural)]
pub enum NanoleafError {
    MalformedLayout,
    FrameTooLarge,
    InvalidAssignment,
    TransmissionFailure,
}

impl NanoleafError {
    /// A short human-readable description, for logging at the edges.
    pub fn describe(&self) -> (r: &'static str)
        ensures
            *self is MalformedLayout ==> r@ == "malformed device layout response"@,
            *self is FrameTooLarge ==> r@ == "frame holds more than 255 panel assignments"@,
            *self is InvalidAssignment ==> r@ == "panel assignment field out of protocol range"@,
            *self is TransmissionFailure ==> r@ == "datagram transmission failed"@,
    {
        match self {
            NanoleafError::MalformedLayout => "malformed device layout response",
            NanoleafError::FrameTooLarge => "frame holds more than 255 panel assignments",
            NanoleafError::InvalidAssignment => "panel assignment field out of protocol range",
            NanoleafError::TransmissionFailure => "datagram transmission failed",
        }
    }
}

} // verus!
