//! Container reader: parses the fixed binary layout into its sections.
//!
//! Layout, in order: an 8-byte magic constant, a 2-byte gap, a 32-bit
//! little-endian length followed by that many key-section bytes, a 32-bit
//! length followed by that many metadata bytes (located but discarded), a
//! 9-byte region (4-byte checksum plus 5-byte gap), a 32-bit length followed
//! by that many image bytes (located but discarded), and the audio payload
//! running to the end of the buffer. The parse is pure and fails fast with
//! `Truncated` on any read that would run past the end of the buffer.

use vstd::prelude::*;
use vstd::slice::{slice_subrange, slice_to_vec};
use crate::errors::FormatError;

verus! {

/// The fixed 8-byte header magic constant.
pub open spec fn header_magic() -> Seq<u8> {
    seq![0x43u8, 0x54u8, 0x45u8, 0x4eu8, 0x46u8, 0x44u8, 0x41u8, 0x4du8]
}

/// The unsigned 32-bit little-endian integer stored at offset `off`.
pub open spec fn u32_le_at(s: Seq<u8>, off: int) -> int
    recommends
        0 <= off,
        off + 4 <= s.len(),
{
    s[off] + s[off + 1] * 0x100 + s[off + 2] * 0x10000 + s[off + 3] * 0x1000000
}

/// What the container reader returns on a given buffer: either the key
/// section and audio section, or the first format error the layout shows.
pub open spec fn spec_parse(s: Seq<u8>) -> Result<(Seq<u8>, Seq<u8>), FormatError> {
    let n = s.len() as int;
    if n < 8 {
        Err(FormatError::Truncated)
    } else if s.subrange(0, 8) != header_magic() {
        Err(FormatError::InvalidMagic)
    } else if n < 14 {
        Err(FormatError::Truncated)
    } else {
        let klen = u32_le_at(s, 10);
        if n - 14 < klen {
            Err(FormatError::Truncated)
        } else {
            let key_end = 14 + klen;
            if n - key_end < 4 {
                Err(FormatError::Truncated)
            } else {
                let mlen = u32_le_at(s, key_end);
                if n - (key_end + 4) < mlen {
                    Err(FormatError::Truncated)
                } else {
                    let meta_end = key_end + 4 + mlen;
                    if n - meta_end < 9 {
                        Err(FormatError::Truncated)
                    } else {
                        let crc_end = meta_end + 9;
                        if n - crc_end < 4 {
                            Err(FormatError::Truncated)
                        } else {
                            let ilen = u32_le_at(s, crc_end);
                            if n - (crc_end + 4) < ilen {
                                Err(FormatError::Truncated)
                            } else {
                                Ok((s.subrange(14, key_end), s.subrange(crc_end + 4 + ilen, n)))
                            }
                        }
                    }
                }
            }
        }
    }
}

/// The sections a successful parse yields: the encrypted key section and the
/// enciphered audio payload. Metadata and image sections are only located so
/// the cursor advances correctly; their contents are discarded.
#[derive(Debug)]
pub struct Sections {
    pub key: Vec<u8>,
    pub audio: Vec<u8>,
}

/// Read the unsigned 32-bit little-endian integer at offset `off`.
fn read_u32_le(buf: &[u8], off: usize) -> (r: u32)
    requires
        off + 4 <= buf@.len(),
    ensures
        r as int == u32_le_at(buf@, off as int),
{
    let b0 = buf[off] as u32;
    let b1 = buf[off + 1] as u32;
    let b2 = buf[off + 2] as u32;
    let b3 = buf[off + 3] as u32;
    b0 + b1 * 0x100 + b2 * 0x10000 + b3 * 0x1000000
}

/// Parse the full container buffer into its key and audio sections, failing
/// with `InvalidMagic` if the first 8 bytes differ from the magic constant
/// (before any section is read) and with `Truncated` on any read past the
/// end of the buffer.
pub fn parse_container(buf: &[u8]) -> (r: Result<Sections, FormatError>)
    ensures
        r is Ok <==> spec_parse(buf@) is Ok,
        r is Ok ==> (r->Ok_0).key@ == spec_parse(buf@)->Ok_0.0,
        r is Ok ==> (r->Ok_0).audio@ == spec_parse(buf@)->Ok_0.1,
        r is Err ==> spec_parse(buf@) == Err::<(Seq<u8>, Seq<u8>), FormatError>(r->Err_0),
{
    let n = buf.len();
    if n < 8 {
        return Err(FormatError::Truncated);
    }
    if !(buf[0] == 0x43 && buf[1] == 0x54 && buf[2] == 0x45 && buf[3] == 0x4e && buf[4] == 0x46
        && buf[5] == 0x44 && buf[6] == 0x41 && buf[7] == 0x4d) {
        proof {
            if buf@.subrange(0, 8) == header_magic() {
                assert(buf@[0] == header_magic()[0]);
                assert(buf@[1] == header_magic()[1]);
                assert(buf@[2] == header_magic()[2]);
                assert(buf@[3] == header_magic()[3]);
                assert(buf@[4] == header_magic()[4]);
                assert(buf@[5] == header_magic()[5]);
                assert(buf@[6] == header_magic()[6]);
                assert(buf@[7] == header_magic()[7]);
            }
        }
        return Err(FormatError::InvalidMagic);
    }
    proof {
        assert(buf@.subrange(0, 8) =~= header_magic());
    }
    if n < 14 {
        return Err(FormatError::Truncated);
    }
    let klen = read_u32_le(buf, 10) as usize;
    if n - 14 < klen {
        return Err(FormatError::Truncated);
    }
    let key_end = 14 + klen;
    if n - key_end < 4 {
        return Err(FormatError::Truncated);
    }
    let mlen = read_u32_le(buf, key_end) as usize;
    if n - (key_end + 4) < mlen {
        return Err(FormatError::Truncated);
    }
    let meta_end = key_end + 4 + mlen;
    if n - meta_end < 9 {
        return Err(FormatError::Truncated);
    }
    let crc_end = meta_end + 9;
    if n - crc_end < 4 {
        return Err(FormatError::Truncated);
    }
    let ilen = read_u32_le(buf, crc_end) as usize;
    if n - (crc_end + 4) < ilen {
        return Err(FormatError::Truncated);
    }
    let audio_start = crc_end + 4 + ilen;
    let key = slice_to_vec(slice_subrange(buf, 14, key_end));
    let audio = slice_to_vec(slice_subrange(buf, audio_start, n));
    Ok(Sections { key, audio })
}

/// Law: a buffer of at least 8 bytes whose first 8 bytes differ from the
/// fixed magic constant fails with `InvalidMagic`, whatever follows.
pub proof fn lemma_invalid_magic(s: Seq<u8>)
    requires
        s.len() >= 8,
        s.subrange(0, 8) != header_magic(),
    ensures
        spec_parse(s) == Err::<(Seq<u8>, Seq<u8>), FormatError>(FormatError::InvalidMagic),
{
}

} // verus!
