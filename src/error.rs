//! The library's error type.

use vstd::prelude::*;

use crate::frame::Frame;

verus! {

/// Why an operation failed.
#[derive(Clone, Debug)]
pub enum Error {
    /// The adapter driver reported a failure; the text is the driver's own.
    Transport(String),
    /// A frame was asked for with an identifier out of its range, too many
    /// data bytes, or a declared length out of range.
    InvalidFrame,
    /// The transport's filters cannot express the wanted identifiers.
    InsufficientFilterCapacity,
    /// A custom filter is already installed on the channel.
    FilterAlreadyConfigured,
    /// The bootloader answered with something other than the awaited
    /// acknowledgement; the frame is kept for diagnosis.
    UnexpectedAcknowledgement(Frame),
}

} // verus!
