//! The hash engine: 64-bit FNV-1a over a byte sequence.

use vstd::prelude::*;

verus! {

/// The value the accumulator starts from.
pub const FNV_OFFSET_BASIS: u64 = 0xcbf29ce484222325;

/// The multiplier applied after each byte.
pub const FNV_PRIME: u64 = 0x100000001b3;

/// One round of the hash: mix the byte into the accumulator, then multiply
/// by the prime, keeping the low 64 bits.
pub open spec fn fnv1a_round(acc: u64, byte: u8) -> u64 {
    (acc ^ (byte as u64)).wrapping_mul(FNV_PRIME)
}

/// The accumulator after all of `bytes` went through the rounds, first byte
/// first, starting from `acc`.
pub open spec fn fnv1a_from(acc: u64, bytes: Seq<u8>) -> u64
    decreases bytes.len(),
{
    if bytes.len() == 0 {
        acc
    } else {
        fnv1a_round(fnv1a_from(acc, bytes.drop_last()), bytes.last())
    }
}

/// The FNV-1a hash of `bytes`.
pub open spec fn fnv1a(bytes: Seq<u8>) -> u64 {
    fnv1a_from(FNV_OFFSET_BASIS, bytes)
}

/// How many leading bytes `const_fnv1a_hash::fnv1a_hash_64` reads: `limit`
/// where it is given, positive and within the slice, else the whole slice.
pub open spec fn hashed_len(len: nat, limit: Option<usize>) -> nat {
    match limit {
        Some(v) if 0 < v && v <= len => v as nat,
        _ => len,
    }
}

/// `const_fnv1a_hash::fnv1a_hash_64` starts from the offset basis and, for
/// each of the first `hashed_len` bytes in order, XORs the byte into the
/// accumulator and multiplies it by the prime with wraparound. It never
/// panics.
pub assume_specification[ const_fnv1a_hash::fnv1a_hash_64 ](
    bytes: &[u8],
    limit: Option<usize>,
) -> (digest: u64)
    ensures
        digest == fnv1a(bytes@.take(hashed_len(bytes@.len(), limit) as int)),
;

/// The initial accumulator: the offset basis, with the seed XORed in where
/// one is supplied.
pub open spec fn seeded_basis(seed: Option<u64>) -> u64 {
    match seed {
        Some(s) => FNV_OFFSET_BASIS ^ s,
        None => FNV_OFFSET_BASIS,
    }
}

/// The hash of `bytes` under an optional seed.
pub open spec fn seeded_hash(bytes: Seq<u8>, seed: Option<u64>) -> u64 {
    fnv1a_from(seeded_basis(seed), bytes)
}

/// Hashes `bytes`. Without a seed this is plain FNV-1a; a seed is mixed into
/// the initial accumulator.
pub fn hash(bytes: &[u8], seed: Option<u64>) -> (h: u64)
    ensures
        h == seeded_hash(bytes@, seed),
        seed is None ==> h == fnv1a(bytes@),
{
    match seed {
        None => {
            assert(bytes@.take(bytes@.len() as int) == bytes@);
            const_fnv1a_hash::fnv1a_hash_64(bytes, None)
        },
        Some(s) => {
            let mut acc: u64 = FNV_OFFSET_BASIS ^ s;
            let mut i: usize = 0;
            while i < bytes.len()
                invariant
                    i <= bytes.len(),
                    acc == fnv1a_from(seeded_basis(seed), bytes@.take(i as int)),
                decreases bytes.len() - i,
            {
                assert(bytes@.take(i + 1).drop_last() == bytes@.take(i as int));
                acc = (acc ^ (bytes[i] as u64)).wrapping_mul(FNV_PRIME);
                i += 1;
            }
            assert(bytes@.take(i as int) == bytes@);
            acc
        },
    }
}

/// The hash of a text: that of its UTF-8 encoding.
pub open spec fn text_hash(text: Seq<char>) -> u64 {
    fnv1a(vstd::utf8::encode_utf8(text))
}

/// Hashes the UTF-8 bytes of `text`.
pub fn hash_text(text: &str) -> (h: u64)
    ensures
        h == text_hash(text@),
{
    hash(text.as_bytes(), None)
}

} // verus!
