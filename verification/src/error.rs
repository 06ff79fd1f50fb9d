//! The error taxonomy of the wire codecs.

use vstd::prelude::*;

verus! {

/// Error returned by the codec `decode` functions.
///
/// Every decode failure is fatal to the current frame: the caller is expected
/// to abandon the frame (typically by closing or resetting the connection),
/// never to retry through the codec.
#[derive(Clone, Copy, Debug, PartialEq, Eq, Structural)]
pub enum PpaassError {
    /// The address frame's kind tag byte was outside the valid set.
    FailToParsePpaassAddressType(u8),
    /// The envelope frame's encryption tag byte was outside the valid set.
    FailToParsePpaassMessagePayloadEncryptionType(u8),
    /// Fewer bytes remained in the buffer than a decode step required.
    BufferUnderflow,
}

} // verus!
