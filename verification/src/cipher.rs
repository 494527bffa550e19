//! Stream cipher decoder: strips the custom stream cipher off the audio
//! payload using the 256-byte keystream lookup table.
//!
//! The table is static for the entire stream and is indexed only by the byte
//! position modulo 256 — it does not evolve per byte. The byte at position
//! `i` is XORed with `table[table[(i + 1) % 256]]`.

use vstd::prelude::*;

verus! {

/// The keystream byte applied at position `i`: a double lookup in the static
/// table, offset by one from the byte position, modulo 256.
pub open spec fn keystream_byte(table: Seq<u8>, i: int) -> u8
    recommends
        table.len() == 256,
        0 <= i,
{
    table[table[(i + 1) % 256] as int]
}

/// What the decoder returns: each ciphertext byte XORed with the keystream
/// byte of its position. The same transform is its own inverse.
pub open spec fn spec_apply_cipher(table: Seq<u8>, data: Seq<u8>) -> Seq<u8> {
    Seq::new(data.len(), |i: int| data[i] ^ keystream_byte(table, i))
}

/// Apply the stream cipher to the payload in place.
pub fn apply_cipher(table: &Vec<u8>, data: &mut Vec<u8>)
    requires
        table@.len() == 256,
    ensures
        final(data)@ == spec_apply_cipher(table@, old(data)@),
{
    let mut i: usize = 0;
    while i < data.len()
        invariant
            table@.len() == 256,
            i <= data@.len(),
            data@.len() == old(data)@.len(),
            forall|k: int| i <= k < data@.len() ==> data@[k] == old(data)@[k],
            forall|k: int| 0 <= k < i ==> data@[k] == (old(data)@[k] ^ keystream_byte(table@, k)),
        decreases data@.len() - i,
    {
        let j = (i + 1) % 256;
        let mask = table[table[j] as usize];
        let b = data[i];
        data.set(i, b ^ mask);
        i += 1;
    }
    proof {
        assert(data@ =~= spec_apply_cipher(table@, old(data)@));
    }
}

/// Law: applying the cipher twice with the same table restores the original
/// bytes — the transform is an involution, which is why the same routine both
/// enciphers and deciphers a payload.
pub proof fn lemma_cipher_involution(table: Seq<u8>, data: Seq<u8>)
    requires
        table.len() == 256,
    ensures
        spec_apply_cipher(table, spec_apply_cipher(table, data)) == data,
{
    let once = spec_apply_cipher(table, data);
    let twice = spec_apply_cipher(table, once);
    assert forall|i: int| 0 <= i < data.len() implies twice[i] == data[i] by {
        let m = keystream_byte(table, i);
        let d = data[i];
        assert((d ^ m) ^ m == d) by (bit_vector);
    }
    assert(twice =~= data);
}

} // verus!
