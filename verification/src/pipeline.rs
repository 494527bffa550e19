//! The in-memory decode pipeline: container bytes in, decrypted and
//! classified audio bytes out.
//!
//! Reading the container from disk and persisting or transcoding the result
//! are the caller's business; this module is pure computation and its result
//! is a function of the input bytes alone.

use vstd::prelude::*;
use crate::cipher::{apply_cipher, spec_apply_cipher};
use crate::container::{parse_container, spec_parse};
use crate::errors::DecodeError;
use crate::keydec::{derive_key, spec_derive_key};
use crate::keystream::{build_sbox, spec_build_sbox};
use crate::sniff::{sniff_format, spec_sniff, AudioKind};

verus! {

/// A decoded audio payload together with its magic-prefix classification.
#[derive(Debug)]
pub struct DecodedAudio {
    pub data: Vec<u8>,
    pub kind: AudioKind,
}

/// What the whole decode pipeline returns on a given container: the decrypted
/// audio bytes and their classification, or the first error of the parse or
/// key-recovery stage.
pub open spec fn spec_decode(s: Seq<u8>) -> Result<(Seq<u8>, AudioKind), DecodeError> {
    match spec_parse(s) {
        Err(e) => Err(DecodeError::Format(e)),
        Ok(sections) => match spec_derive_key(sections.0) {
            Err(e) => Err(DecodeError::Crypto(e)),
            Ok(key) => {
                let plain = spec_apply_cipher(spec_build_sbox(key), sections.1);
                Ok((plain, spec_sniff(plain)))
            },
        },
    }
}

/// Decode a full container buffer: parse the sections, recover the key,
/// build the keystream table, strip the stream cipher off the audio payload,
/// and classify the result.
pub fn decode_ncm(buffer: &[u8]) -> (r: Result<DecodedAudio, DecodeError>)
    ensures
        r is Ok <==> spec_decode(buffer@) is Ok,
        r is Ok ==> (r->Ok_0).data@ == spec_decode(buffer@)->Ok_0.0,
        r is Ok ==> (r->Ok_0).kind == spec_decode(buffer@)->Ok_0.1,
        r is Err ==> spec_decode(buffer@) == Err::<(Seq<u8>, AudioKind), DecodeError>(r->Err_0),
{
    let sections = match parse_container(buffer) {
        Ok(s) => s,
        Err(e) => {
            return Err(DecodeError::Format(e));
        },
    };
    let key = match derive_key(sections.key.as_slice()) {
        Ok(k) => k,
        Err(e) => {
            return Err(DecodeError::Crypto(e));
        },
    };
    let table = build_sbox(key.as_slice());
    let mut audio = sections.audio;
    apply_cipher(&table, &mut audio);
    let kind = sniff_format(audio.as_slice());
    Ok(DecodedAudio { data: audio, kind })
}

/// Law: enciphering a payload under the table derived from a key and then
/// deciphering it under the same table restores the payload exactly — the
/// decoder recovers precisely what was enciphered.
pub proof fn lemma_table_round_trip(key: Seq<u8>, payload: Seq<u8>)
    requires
        key.len() >= 1,
    ensures
        spec_apply_cipher(spec_build_sbox(key), spec_apply_cipher(spec_build_sbox(key), payload))
            == payload,
{
    crate::cipher::lemma_cipher_involution(spec_build_sbox(key), payload);
}

/// Law: decoding is deterministic — the result is a function of the container
/// bytes alone, so decoding the same container twice yields byte-identical
/// output.
pub proof fn lemma_decode_deterministic(s1: Seq<u8>, s2: Seq<u8>)
    requires
        s1 == s2,
    ensures
        spec_decode(s1) == spec_decode(s2),
{
}

} // verus!
