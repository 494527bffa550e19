//! Decoder for a proprietary encrypted audio container format.
//!
//! The pipeline parses a fixed binary layout, recovers a per-file key from an
//! AES-encrypted key section, derives a 256-byte keystream lookup table from
//! that key, strips the stream cipher off the audio payload, and classifies
//! the result by its magic prefix. Finalizing the output on disk (and handing
//! non-native formats to an external transcoder) is driven by a small state
//! machine that guarantees temporary files are cleaned up on every exit path.

pub mod cipher;
pub mod container;
pub mod coordinator;
pub mod errors;
pub mod keydec;
pub mod keystream;
pub mod pipeline;
pub mod sniff;
