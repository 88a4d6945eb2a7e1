//! Errors of the protocol layer.
use vstd::prelude::*;

verus! {

/// What can go wrong in the protocol layer.
#[derive(Debug, Clone, Copy, PartialEq, Eq, Structural)]
pub enum MauiError {
    /// A payload is too long for the nine-digit length field.
    Encoding,
    /// A received block is too short or lacks the `#9` header.
    Decoding,
    /// A local destination file already exists.
    DestinationExists,
    /// A file does not carry the extension its kind requires.
    InvalidExtension,
    /// A parameter is outside the range the device accepts.
    InvalidParameter,
    /// The device answered with a value outside its documented set.
    ProtocolViolation,
    /// A bounded wait ran out of polls before the device was done.
    Timeout,
    /// A reply was reported that the current step did not ask for.
    OutOfSequence,
}

} // verus!
