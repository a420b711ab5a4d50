//! The message codec: what requests and responses have in common on the wire.
//!
//! Every message starts with a two-byte discriminator. What follows:
//!
//! ```text
//! Register request    address (32)
//! Pull request        address (32) | token (32)
//! Register response   token (32)
//! Pull response       count (2) | length of each message (2 each) | the messages
//! ```
//!
//! All two-byte fields are big-endian. A message ends where the byte sequence
//! ends: the transport delimits messages by closing the stream, so the codec
//! always sees a whole message and nothing after it.
//!
//! Decoding tells two failures apart. A sequence is *malformed* when its fixed
//! header cannot be read: the discriminator is cut short or unknown, or a
//! field of fixed size that must follow it is cut short. Its *length
//! mismatches* when the header is sound but the bytes after it are not as
//! many as it implies or declares: bytes trail a fixed-size body, the length
//! table does not fit, or the declared lengths do not add up to what is left.

use vstd::prelude::*;

verus! {

/// Discriminator of a Register request and of its response.
pub const REGISTER_DISCRIMINATOR: u16 = 0x0001;

/// Discriminator of a Pull request and of its response.
pub const PULL_DISCRIMINATOR: u16 = 0x0100;

/// Why a message could not be encoded or decoded.
#[derive(Clone, Copy, Debug, PartialEq, Eq, Structural)]
pub enum CodecError {
    /// The value does not fit the wire format.
    MarshalError,
    /// The bytes are malformed.
    UnmarshalError,
    /// The bytes are not as many as their header implies or declares.
    UnmarshalErrorInvalidLength,
}

} // verus!
