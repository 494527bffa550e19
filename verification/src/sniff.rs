//! Format sniffer: classifies decrypted audio bytes by their magic prefix.

use vstd::prelude::*;

verus! {

/// Classification of a decrypted audio payload.
#[derive(Debug, Clone, Copy, PartialEq, Eq, Structural)]
pub enum AudioKind {
    /// The payload starts with the FLAC magic sequence `fLaC`.
    Flac,
    /// Anything else (in practice MP3).
    Other,
}

/// The four-byte FLAC magic sequence, `fLaC` in ASCII.
pub open spec fn flac_magic() -> Seq<u8> {
    seq![0x66u8, 0x4cu8, 0x61u8, 0x43u8]
}

/// What the sniffer returns: `Flac` exactly when the buffer is at least four
/// bytes long and starts with the FLAC magic sequence.
pub open spec fn spec_sniff(s: Seq<u8>) -> AudioKind {
    if s.len() >= 4 && s.subrange(0, 4) == flac_magic() {
        AudioKind::Flac
    } else {
        AudioKind::Other
    }
}

/// Classify a decrypted buffer by inspecting its first four bytes; no further
/// content is read.
pub fn sniff_format(data: &[u8]) -> (r: AudioKind)
    ensures
        r == spec_sniff(data@),
{
    if data.len() >= 4 && data[0] == 0x66 && data[1] == 0x4c && data[2] == 0x61 && data[3] == 0x43 {
        proof {
            assert(data@.subrange(0, 4) =~= flac_magic());
        }
        AudioKind::Flac
    } else {
        proof {
            if data@.len() >= 4 && data@.subrange(0, 4) == flac_magic() {
                assert(data@[0] == flac_magic()[0]);
                assert(data@[1] == flac_magic()[1]);
                assert(data@[2] == flac_magic()[2]);
                assert(data@[3] == flac_magic()[3]);
            }
        }
        AudioKind::Other
    }
}

/// Law: any buffer whose first four bytes are the FLAC magic sequence
/// classifies as `Flac`; every other buffer classifies as `Other`.
pub proof fn lemma_sniff_classification(s: Seq<u8>)
    ensures
        s.len() >= 4 && s.subrange(0, 4) == flac_magic() ==> spec_sniff(s) == AudioKind::Flac,
        !(s.len() >= 4 && s.subrange(0, 4) == flac_magic()) ==> spec_sniff(s) == AudioKind::Other,
{
}

} // verus!
