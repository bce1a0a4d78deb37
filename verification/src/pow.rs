//! Proof-of-work verification and mining.
//!
//! A vertex is accepted only if the SHA3-256 hash of `body_bytes || LE64(pow_nonce)`
//! has at least `difficulty` leading zero bits, counted byte-by-byte from the
//! most significant bit.

use vstd::bytes::{spec_u64_to_le_bytes, u64_to_le_bytes};
use vstd::prelude::*;

use crate::crypto::{sha3_256, sha3_256_of};

verus! {

/// Leading zero bits of one byte, counted from the most significant bit.
pub open spec fn spec_u8_leading_zeros(b: u8) -> int {
    if b >= 128 {
        0
    } else if b >= 64 {
        1
    } else if b >= 32 {
        2
    } else if b >= 16 {
        3
    } else if b >= 8 {
        4
    } else if b >= 4 {
        5
    } else if b >= 2 {
        6
    } else if b >= 1 {
        7
    } else {
        8
    }
}

/// Leading zero bits of a byte sequence, counted from the first byte.
pub open spec fn spec_leading_zero_bits(s: Seq<u8>) -> int
    decreases s.len(),
{
    if s.len() == 0 {
        0
    } else if s[0] == 0 {
        8 + spec_leading_zero_bits(s.drop_first())
    } else {
        spec_u8_leading_zeros(s[0])
    }
}

/// The PoW acceptance predicate: the hash of `body ‖ LE64(nonce)` has at
/// least `difficulty` leading zero bits.
pub open spec fn spec_pow_ok(body: Seq<u8>, nonce: u64, difficulty: u8) -> bool {
    spec_leading_zero_bits(sha3_256_of(body + spec_u64_to_le_bytes(nonce))) >= difficulty as int
}

proof fn lemma_lz_zero_prefix(s: Seq<u8>, i: int)
    requires
        0 <= i <= s.len(),
        forall|j: int| 0 <= j < i ==> s[j] == 0,
    ensures
        spec_leading_zero_bits(s) == 8 * i + spec_leading_zero_bits(s.skip(i)),
    decreases i,
{
    if i == 0 {
        assert(s.skip(0) =~= s);
    } else {
        assert(s[0] == 0);
        let t = s.drop_first();
        lemma_lz_zero_prefix(t, i - 1);
        assert(t.skip(i - 1) =~= s.skip(i));
    }
}

proof fn lemma_lz_bounds(s: Seq<u8>)
    ensures
        0 <= spec_leading_zero_bits(s) <= 8 * s.len(),
    decreases s.len(),
{
    if s.len() > 0 {
        lemma_lz_bounds(s.drop_first());
    }
}

/// Count the leading zero bits of a 32-byte hash.
pub fn leading_zero_bits(hash: &[u8; 32]) -> (r: u32)
    ensures
        r == spec_leading_zero_bits(hash@),
{
    let mut i: usize = 0;
    while i < 32
        invariant
            i <= 32,
            hash@.len() == 32,
            forall|j: int| 0 <= j < i ==> hash@[j] == 0,
        decreases 32 - i,
    {
        let b = hash[i];
        if b != 0 {
            let lz: u32 = if b >= 128 {
                0
            } else if b >= 64 {
                1
            } else if b >= 32 {
                2
            } else if b >= 16 {
                3
            } else if b >= 8 {
                4
            } else if b >= 4 {
                5
            } else if b >= 2 {
                6
            } else {
                7
            };
            proof {
                lemma_lz_zero_prefix(hash@, i as int);
                assert(hash@.skip(i as int)[0] == hash@[i as int]);
            }
            return 8 * (i as u32) + lz;
        }
        i += 1;
    }
    proof {
        lemma_lz_zero_prefix(hash@, 32);
        assert(hash@.skip(32) =~= Seq::<u8>::empty());
    }
    256
}

/// Hash the PoW commitment `body_bytes ‖ LE64(nonce)`.
fn pow_hash(body_bytes: &[u8], nonce: u64) -> (r: [u8; 32])
    ensures
        r@ == sha3_256_of(body_bytes@ + spec_u64_to_le_bytes(nonce)),
{
    let mut input: Vec<u8> = Vec::new();
    let n: usize = body_bytes.len();
    let mut i: usize = 0;
    while i < n
        invariant
            n == body_bytes@.len(),
            i <= n,
            input@ == body_bytes@.subrange(0, i as int),
        decreases n - i,
    {
        input.push(body_bytes[i]);
        i += 1;
    }
    assert(input@ =~= body_bytes@);
    let mut nb = u64_to_le_bytes(nonce);
    let mut k: usize = 0;
    while k < 8
        invariant
            nb@ == spec_u64_to_le_bytes(nonce),
            nb@.len() == 8,
            k <= 8,
            input@ == body_bytes@ + nb@.subrange(0, k as int),
        decreases 8 - k,
    {
        input.push(nb[k]);
        k += 1;
    }
    assert(input@ =~= body_bytes@ + spec_u64_to_le_bytes(nonce));
    sha3_256(input.as_slice())
}

/// Verify that the PoW hash of `body_bytes ‖ pow_nonce` has at least
/// `difficulty` leading zero bits.
pub fn verify_pow(body_bytes: &[u8], pow_nonce: u64, difficulty: u8) -> (r: bool)
    ensures
        r == spec_pow_ok(body_bytes@, pow_nonce, difficulty),
{
    let hash = pow_hash(body_bytes, pow_nonce);
    let lz = leading_zero_bits(&hash);
    lz >= difficulty as u32
}

/// Search upward from zero for a nonce whose PoW hash meets `difficulty`.
/// A returned nonce is the least satisfying one; None comes back only when
/// the entire nonce space fails.
pub fn mine_pow(body_bytes: &[u8], difficulty: u8) -> (r: Option<u64>)
    ensures
        r matches Some(nonce) ==> spec_pow_ok(body_bytes@, nonce, difficulty) && forall|m: u64|
            m < nonce ==> !spec_pow_ok(body_bytes@, m, difficulty),
        r is None ==> forall|m: u64| !spec_pow_ok(body_bytes@, m, difficulty),
{
    let mut nonce: u64 = 0;
    loop
        invariant
            forall|m: u64| m < nonce ==> !spec_pow_ok(body_bytes@, m, difficulty),
        decreases u64::MAX - nonce,
    {
        if verify_pow(body_bytes, nonce, difficulty) {
            return Some(nonce);
        }
        if nonce == u64::MAX {
            return None;
        }
        nonce += 1;
    }
}

} // verus!
