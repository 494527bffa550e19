//! Keystream table builder: derives the 256-byte lookup table from the
//! recovered key.
//!
//! The construction is a literal transcription of the container format's
//! reverse-engineered table schedule: a key-driven scrambling pass over the
//! identity permutation followed by a double-indirection post-processing
//! pass. All arithmetic wraps modulo 256. Any deviation silently corrupts
//! every decrypted byte, so the spec functions below are the authoritative
//! statement of the schedule and the executable code is proved equal to them.

use vstd::prelude::*;

verus! {

/// The identity table: entry `i` holds byte `i`, for `i` in `0..256`.
pub open spec fn identity_table() -> Seq<u8> {
    Seq::new(256, |i: int| i as u8)
}

/// One round of the scrambling pass at index `i`: advance the accumulator `j`
/// by the table entry and the key byte (mod 256), then swap entries `i` and
/// the new `j`.
pub open spec fn scramble_round(t: Seq<u8>, j: int, key: Seq<u8>, i: int) -> (Seq<u8>, int)
    recommends
        t.len() == 256,
        key.len() >= 1,
        0 <= i < 256,
        0 <= j < 256,
{
    let j2 = (j + t[i] + key[i % (key.len() as int)]) % 256;
    (t.update(i, t[j2]).update(j2, t[i]), j2)
}

/// Table and accumulator after the first `n` rounds of the scrambling pass,
/// starting from the identity table and a zero accumulator.
pub open spec fn scramble_state(key: Seq<u8>, n: nat) -> (Seq<u8>, int)
    decreases n,
{
    if n == 0 {
        (identity_table(), 0)
    } else {
        let prev = scramble_state(key, (n - 1) as nat);
        scramble_round(prev.0, prev.1, key, n - 1)
    }
}

/// Entry `i` of the post-processed table: look the scrambled table up twice,
/// offsetting each index by the original entry, modulo 256.
pub open spec fn finalize_entry(t: Seq<u8>, i: int) -> u8
    recommends
        t.len() == 256,
        0 <= i < 256,
{
    let orig = t[i];
    let idx = (t[(i + orig) % 256] + orig) % 256;
    t[idx]
}

/// The post-processing pass: a fresh 256-byte table built entry by entry from
/// the scrambled table. The result need not be a permutation; it is used
/// purely as a static lookup array.
pub open spec fn finalize_table(t: Seq<u8>) -> Seq<u8> {
    Seq::new(256, |i: int| finalize_entry(t, i))
}

/// The keystream table derived from `key`: the identity table scrambled by
/// 256 key-driven rounds, then post-processed. A function of the key alone.
pub open spec fn spec_build_sbox(key: Seq<u8>) -> Seq<u8> {
    finalize_table(scramble_state(key, 256).0)
}

/// Build the 256-byte keystream lookup table from the derived key bytes.
pub fn build_sbox(key: &[u8]) -> (r: Vec<u8>)
    requires
        key@.len() >= 1,
    ensures
        r@ == spec_build_sbox(key@),
        r@.len() == 256,
{
    let mut t: Vec<u8> = Vec::new();
    let mut i: usize = 0;
    while i < 256
        invariant
            i <= 256,
            t@.len() == i,
            forall|k: int| 0 <= k < i ==> t@[k] == k as u8,
        decreases 256 - i,
    {
        t.push(i as u8);
        i += 1;
    }
    proof {
        assert(t@ =~= identity_table());
    }

    let mut j: usize = 0;
    i = 0;
    while i < 256
        invariant
            key@.len() >= 1,
            i <= 256,
            t@.len() == 256,
            j < 256,
            t@ == scramble_state(key@, i as nat).0,
            j as int == scramble_state(key@, i as nat).1,
        decreases 256 - i,
    {
        let k = key[i % key.len()];
        let j2 = (j + t[i] as usize + k as usize) % 256;
        let ti = t[i];
        let tj = t[j2];
        t.set(i, tj);
        t.set(j2, ti);
        proof {
            assert((t@, j2 as int) == scramble_round(
                scramble_state(key@, i as nat).0,
                scramble_state(key@, i as nat).1,
                key@,
                i as int,
            ));
            assert(scramble_state(key@, (i + 1) as nat).0 == t@);
        }
        j = j2;
        i += 1;
    }

    let mut f: Vec<u8> = Vec::new();
    i = 0;
    while i < 256
        invariant
            i <= 256,
            t@.len() == 256,
            t@ == scramble_state(key@, 256).0,
            f@.len() == i,
            forall|k: int| 0 <= k < i ==> f@[k] == finalize_entry(t@, k),
        decreases 256 - i,
    {
        let orig = t[i] as usize;
        let idx = (t[(i + orig) % 256] as usize + orig) % 256;
        f.push(t[idx]);
        i += 1;
    }
    proof {
        assert(f@ =~= finalize_table(scramble_state(key@, 256).0));
    }
    f
}

/// Whether the byte value `b` occurs among the first 256 entries of `t`.
pub open spec fn contains_byte(t: Seq<u8>, b: u8) -> bool {
    exists|k: int| 0 <= k < 256 && t[k] == b
}

/// A 256-entry table in which every byte value occurs. With the length fixed
/// at 256 this makes the table a permutation of `0..256`.
pub open spec fn is_byte_permutation(t: Seq<u8>) -> bool {
    &&& t.len() == 256
    &&& forall|b: u8| #[trigger] contains_byte(t, b)
}

/// Law: the scrambling pass permutes — after any number of its rounds the
/// table is still a permutation of `0..256`, since each round only swaps two
/// entries of the identity table. The post-processing pass does not preserve
/// this; its result is used purely as a lookup array.
pub proof fn lemma_scramble_is_permutation(key: Seq<u8>, n: nat)
    requires
        key.len() >= 1,
        n <= 256,
    ensures
        scramble_state(key, n).0.len() == 256,
        0 <= scramble_state(key, n).1 < 256,
        is_byte_permutation(scramble_state(key, n).0),
    decreases n,
{
    if n == 0 {
        assert forall|b: u8| #[trigger] contains_byte(identity_table(), b) by {
            assert(0 <= (b as int) < 256 && identity_table()[b as int] == b);
        }
    } else {
        lemma_scramble_is_permutation(key, (n - 1) as nat);
        let prev = scramble_state(key, (n - 1) as nat);
        let t = prev.0;
        let i = n - 1;
        let j2 = (prev.1 + t[i] + key[i % (key.len() as int)]) % 256;
        let t2 = t.update(i, t[j2]).update(j2, t[i]);
        assert(scramble_state(key, n).0 == t2);
        assert forall|b: u8| #[trigger] contains_byte(t2, b) by {
            assert(contains_byte(t, b));
            let k0 = choose|k0: int| 0 <= k0 < 256 && t[k0] == b;
            if k0 == i {
                if i == j2 {
                    assert(0 <= i < 256 && t2[i] == b);
                } else {
                    assert(0 <= j2 < 256 && t2[j2] == b);
                }
            } else if k0 == j2 {
                assert(0 <= i < 256 && t2[i] == b);
            } else {
                assert(0 <= k0 < 256 && t2[k0] == b);
            }
        }
    }
}

/// Law: the keystream table builder is a pure function of the key bytes —
/// identical key bytes always yield an identical 256-byte table, independent
/// of invocation order or prior calls.
pub proof fn lemma_build_sbox_pure(k1: Seq<u8>, k2: Seq<u8>)
    requires
        k1 == k2,
    ensures
        spec_build_sbox(k1) == spec_build_sbox(k2),
        spec_build_sbox(k1).len() == 256,
{
}

} // verus!
