//! Key derivation: recovers the per-file keystream key from the container's
//! encrypted key section.
//!
//! Strictly ordered steps: XOR every byte with `0x64`, decrypt with the fixed
//! embedded core key under AES-128 in electronic-codebook mode with standard
//! block-padding removal, then strip a fixed 17-byte literal prefix. The
//! remainder is the raw key material and must be non-empty.

use vstd::prelude::*;
use vstd::slice::{slice_subrange, slice_to_vec};
use aes::cipher::{block_padding::Pkcs7, BlockDecryptMut, KeyInit};
use crate::errors::CryptoError;

verus! {

/// The fixed 16-byte embedded core key used solely to decrypt the per-file
/// key blob.
pub open spec fn core_key() -> Seq<u8> {
    seq![
        0x68u8, 0x7au8, 0x48u8, 0x52u8, 0x41u8, 0x6du8, 0x73u8, 0x6fu8,
        0x35u8, 0x6bu8, 0x49u8, 0x6eu8, 0x62u8, 0x61u8, 0x78u8, 0x57u8,
    ]
}

/// The number of prefix bytes stripped from the decrypted key blob.
pub open spec fn key_prefix_len() -> int {
    17
}

/// The byte-wise unmasking step: every byte XORed with `0x64`.
pub open spec fn unmask(s: Seq<u8>) -> Seq<u8> {
    Seq::new(s.len(), |i: int| s[i] ^ 0x64)
}

/// What AES-128-ECB decryption with standard block-padding removal returns on
/// the given data under the given 16-byte key: `Some` of the unpadded
/// plaintext, or `None` if the data's length is not a multiple of the block
/// size or its padding is malformed. A function of the data and key alone.
pub uninterp spec fn aes128_ecb_unpad(data: Seq<u8>, key: Seq<u8>) -> Option<Seq<u8>>;

/// Relies on `ecb::Decryptor::<aes::Aes128>` (constructed with
/// `KeyInit::new_from_slice`) and `BlockDecryptMut::decrypt_padded_mut` with
/// PKCS7 padding: decrypts the buffer block by block and strips the padding,
/// returning `None` exactly when the length is not a multiple of the block
/// size or the padding is malformed — a deterministic function of the data
/// and key bytes alone.
#[verifier::external_body]
fn decrypt_aes(data: &[u8], key: &[u8]) -> (r: Option<Vec<u8>>)
    requires
        key@.len() == 16,
    ensures
        match r {
            Some(v) => aes128_ecb_unpad(data@, key@) == Some(v@),
            None => aes128_ecb_unpad(data@, key@) is None,
        },
{
    let dec: ecb::Decryptor<aes::Aes128> = match ecb::Decryptor::new_from_slice(key) {
        Ok(d) => d,
        Err(_) => return None,
    };
    let mut buffer = data.to_vec();
    match dec.decrypt_padded_mut::<Pkcs7>(&mut buffer) {
        Ok(plain) => Some(plain.to_vec()),
        Err(_) => None,
    }
}

/// What key derivation returns on a given key section: the raw key material,
/// or the first crypto error the steps show. `BlockLength` comes exactly when
/// the section's length is not a multiple of the block size, `Padding` when
/// the block cipher rejects the unmasked section, and `KeyTooShort` when at
/// most the fixed prefix remains after decryption.
pub open spec fn spec_derive_key(keysec: Seq<u8>) -> Result<Seq<u8>, CryptoError> {
    if keysec.len() % 16 != 0 {
        Err(CryptoError::BlockLength)
    } else {
        match aes128_ecb_unpad(unmask(keysec), core_key()) {
            Option::None => Err(CryptoError::Padding),
            Option::Some(v) => if v.len() <= key_prefix_len() {
                Err(CryptoError::KeyTooShort)
            } else {
                Ok(v.skip(key_prefix_len()))
            },
        }
    }
}

/// The fixed embedded core key as bytes.
fn core_key_bytes() -> (r: Vec<u8>)
    ensures
        r@ == core_key(),
{
    let mut r: Vec<u8> = Vec::new();
    r.push(0x68);
    r.push(0x7a);
    r.push(0x48);
    r.push(0x52);
    r.push(0x41);
    r.push(0x6d);
    r.push(0x73);
    r.push(0x6f);
    r.push(0x35);
    r.push(0x6b);
    r.push(0x49);
    r.push(0x6e);
    r.push(0x62);
    r.push(0x61);
    r.push(0x78);
    r.push(0x57);
    proof {
        assert(r@ =~= core_key());
    }
    r
}

/// Recover the raw keystream key from the container's key section: unmask,
/// AES-decrypt under the embedded core key, and strip the fixed prefix. The
/// result is non-empty.
pub fn derive_key(keysec: &[u8]) -> (r: Result<Vec<u8>, CryptoError>)
    ensures
        r is Ok ==> spec_derive_key(keysec@) == Ok::<Seq<u8>, CryptoError>((r->Ok_0)@),
        r is Ok ==> (r->Ok_0)@.len() >= 1,
        r is Err ==> spec_derive_key(keysec@) == Err::<Seq<u8>, CryptoError>(r->Err_0),
{
    if keysec.len() % 16 != 0 {
        return Err(CryptoError::BlockLength);
    }
    let mut masked: Vec<u8> = Vec::new();
    let mut i: usize = 0;
    while i < keysec.len()
        invariant
            i <= keysec@.len(),
            masked@.len() == i,
            forall|k: int| 0 <= k < i ==> masked@[k] == (keysec@[k] ^ 0x64),
        decreases keysec@.len() - i,
    {
        masked.push(keysec[i] ^ 0x64);
        i += 1;
    }
    proof {
        assert(masked@ =~= unmask(keysec@));
    }
    let core = core_key_bytes();
    match decrypt_aes(masked.as_slice(), core.as_slice()) {
        Option::None => Err(CryptoError::Padding),
        Option::Some(v) => {
            if v.len() <= 17 {
                Err(CryptoError::KeyTooShort)
            } else {
                let raw = slice_to_vec(slice_subrange(v.as_slice(), 17, v.len()));
                proof {
                    assert(raw@ =~= v@.skip(key_prefix_len()));
                }
                Ok(raw)
            }
        },
    }
}

/// Law: when the AES-decrypted key blob leaves no key material after the
/// fixed prefix is stripped, derivation fails with `KeyTooShort`.
pub proof fn lemma_key_too_short(keysec: Seq<u8>)
    requires
        keysec.len() % 16 == 0,
        aes128_ecb_unpad(unmask(keysec), core_key()) is Some,
        aes128_ecb_unpad(unmask(keysec), core_key()).unwrap().len() <= key_prefix_len(),
    ensures
        spec_derive_key(keysec) == Err::<Seq<u8>, CryptoError>(CryptoError::KeyTooShort),
{
}

} // verus!
