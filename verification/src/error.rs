//! The failures the driver reports to its caller.

use vstd::prelude::*;

verus! {

/// Why an operation of the driver did not go through.
#[derive(Clone, Copy, Debug, PartialEq, Eq, Structural)]
pub enum InkyError {
    /// A write on the serial bus failed while a command was being sent.
    TransportError,
    /// The busy line did not signal readiness within the time allowed.
    SynchronizationTimeout,
    /// The source image cannot be used: its pixel data does not match the
    /// size it declares.
    ImageDecodeError,
    /// A pixel coordinate lies outside the panel.
    OutOfBounds,
}

impl InkyError {
    /// A short description of the failure, for logs and panics.
    pub fn message(&self) -> (text: &'static str)
        ensures
            text@ == self.spec_message()@,
    {
        match self {
            InkyError::TransportError => "Error writing to the serial bus",
            InkyError::SynchronizationTimeout => "Timeout waiting for busy pin",
            InkyError::ImageDecodeError => "Failed to open image",
            InkyError::OutOfBounds => "Pixel coordinate outside the panel",
        }
    }

    /// The description that [`InkyError::message`] returns.
    pub open spec fn spec_message(&self) -> &'static str {
        match self {
            InkyError::TransportError => "Error writing to the serial bus",
            InkyError::SynchronizationTimeout => "Timeout waiting for busy pin",
            InkyError::ImageDecodeError => "Failed to open image",
            InkyError::OutOfBounds => "Pixel coordinate outside the panel",
        }
    }
}

} // verus!
