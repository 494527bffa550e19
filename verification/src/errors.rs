//! Error taxonomy of the decoding pipeline.
//!
//! Every error is terminal for a single request; the pipeline performs no
//! internal retries. A container file that is missing or unreadable is the
//! caller's input error and is reported by the shell before any bytes reach
//! the library.

use vstd::prelude::*;

verus! {

/// Failures of the container reader: the fixed layout could not be parsed.
#[derive(Debug, Clone, PartialEq, Eq, Structural)]
pub enum FormatError {
    /// The first 8 bytes of the container differ from the fixed magic constant.
    InvalidMagic,
    /// A section read would run past the end of the buffer.
    Truncated,
}

/// Failures of the key-derivation step.
#[derive(Debug, Clone, PartialEq, Eq, Structural)]
pub enum CryptoError {
    /// The block cipher's padding was malformed.
    Padding,
    /// The encrypted key section's length is not a multiple of the cipher's
    /// block size.
    BlockLength,
    /// After decryption and prefix stripping no key material remains.
    KeyTooShort,
}

/// Failures of the external transcoder collaborator.
#[derive(Debug, Clone, PartialEq, Eq)]
pub enum TranscoderError {
    /// The transcoder executable could not be located.
    NotFound,
    /// The transcoder exited with a non-zero status; carries its captured
    /// standard-error text.
    NonZeroExit(String),
}

/// Any failure of the in-memory decode pipeline (container parse and key
/// recovery). Transcoding and I/O failures are reported separately by their
/// own phases.
#[derive(Debug, Clone, PartialEq, Eq, Structural)]
pub enum DecodeError {
    Format(FormatError),
    Crypto(CryptoError),
}

} // verus!
