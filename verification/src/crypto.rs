//! Content hashing and proof-of-work hashing.
//!
//! The two hash functions themselves live in outside crates; their results
//! are given names here and everything that depends on them is verified
//! against those names.

use sha3::Digest;
use vstd::prelude::*;

use crate::types::{AccountId, TxId};

verus! {

/// The 32-byte BLAKE3 digest of a byte sequence, as an uninterpreted name.
pub uninterp spec fn blake3_of(data: Seq<u8>) -> Seq<u8>;

/// The 32-byte SHA3-256 digest of a byte sequence, as an uninterpreted name.
pub uninterp spec fn sha3_256_of(data: Seq<u8>) -> Seq<u8>;

/// Relies on blake3::hash: a 32-byte digest that depends on the input bytes
/// alone.
#[verifier::external_body]
pub fn blake3_hash(data: &[u8]) -> (r: [u8; 32])
    ensures
        r@ == blake3_of(data@),
{
    *blake3::hash(data).as_bytes()
}

/// Relies on sha3::Sha3_256 (via the digest traits): a 32-byte digest that
/// depends on the input bytes alone.
#[verifier::external_body]
pub(crate) fn sha3_256(data: &[u8]) -> (r: [u8; 32])
    ensures
        r@ == sha3_256_of(data@),
{
    let mut hasher = sha3::Sha3_256::new();
    hasher.update(data);
    hasher.finalize().into()
}

/// Derive an AccountId from raw public key bytes using the content hash.
pub fn account_id_from_pubkey(pubkey_bytes: &[u8]) -> (r: AccountId)
    ensures
        r@ == blake3_of(pubkey_bytes@),
{
    AccountId::from_bytes(blake3_hash(pubkey_bytes))
}

/// Derive a TxId from the canonical transaction body bytes using the content
/// hash.
pub fn tx_id_from_body(body_bytes: &[u8]) -> (r: TxId)
    ensures
        r@ == blake3_of(body_bytes@),
{
    TxId::from_bytes(blake3_hash(body_bytes))
}

} // verus!
