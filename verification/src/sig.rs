//! Post-quantum signatures (Dilithium2) behind trusted wrappers.
//!
//! Whether a (key, message, signature) triple verifies is a pure function of
//! the three byte strings; it is given the name `dilithium_verifies` and the
//! signature-policy logic is verified against that name. Signing is likewise
//! deterministic and its result carries the name `dilithium_sig_of`.

use pqcrypto_traits::sign::{DetachedSignature, PublicKey, SecretKey};
use vstd::prelude::*;

use crate::crypto::{account_id_from_pubkey, blake3_of};
use crate::types::{AccountId, DilithiumPublicKey, DilithiumSignature};

verus! {

/// Byte length of a Dilithium2 public key.
pub const DILITHIUM_PUBLIC_KEY_BYTES: usize = 1312;

/// Byte length of a Dilithium2 secret key.
pub const DILITHIUM_SECRET_KEY_BYTES: usize = 2560;

/// Byte length of a Dilithium2 detached signature.
pub const DILITHIUM_SIGNATURE_BYTES: usize = 2420;

/// Whether a detached Dilithium2 signature over `msg` verifies under the
/// public key `pk`; a pure function of the three byte strings.
pub uninterp spec fn dilithium_verifies(pk: Seq<u8>, msg: Seq<u8>, sig: Seq<u8>) -> bool;

/// Relies on pqcrypto_dilithium::dilithium2::verify_detached_signature (and
/// the length-checking from_bytes constructors): deterministic in the three
/// byte strings.
#[verifier::external_body]
fn dilithium_verify_raw(pk: &[u8], msg: &[u8], sig: &[u8]) -> (r: bool)
    ensures
        r == dilithium_verifies(pk@, msg@, sig@),
{
    let pk = match pqcrypto_dilithium::dilithium2::PublicKey::from_bytes(pk) {
        Ok(k) => k,
        Err(_) => return false,
    };
    let sig = match pqcrypto_dilithium::dilithium2::DetachedSignature::from_bytes(sig) {
        Ok(s) => s,
        Err(_) => return false,
    };
    pqcrypto_dilithium::dilithium2::verify_detached_signature(&sig, msg, &pk).is_ok()
}

/// The detached Dilithium2 signature over `msg` under the secret key `sk`.
/// Signing here is deterministic (the implementation zeroes the optional
/// randomizer), so the result is a pure function of the two byte strings.
pub uninterp spec fn dilithium_sig_of(sk: Seq<u8>, msg: Seq<u8>) -> Seq<u8>;

/// Relies on pqcrypto_dilithium::dilithium2::detached_sign: deterministic
/// signing, so the result depends on the secret key and message alone. The
/// secret key constructor checks length only, so a key of the documented
/// length never makes the call panic.
#[verifier::external_body]
fn dilithium_sign_raw(sk: &[u8], msg: &[u8]) -> (r: Vec<u8>)
    requires
        sk@.len() == DILITHIUM_SECRET_KEY_BYTES,
    ensures
        r@ == dilithium_sig_of(sk@, msg@),
        r@.len() == DILITHIUM_SIGNATURE_BYTES,
{
    let sk = pqcrypto_dilithium::dilithium2::SecretKey::from_bytes(sk)
        .expect("secret key length checked by caller");
    let sig = pqcrypto_dilithium::dilithium2::detached_sign(msg, &sk);
    sig.as_bytes().to_vec()
}

/// Relies on pqcrypto_dilithium::dilithium2::keypair: a fresh keypair of the
/// documented lengths. The result is random; nothing else is stated of it.
#[verifier::external_body]
fn dilithium_keypair_raw() -> (r: (Vec<u8>, Vec<u8>))
    ensures
        r.0@.len() == DILITHIUM_PUBLIC_KEY_BYTES,
        r.1@.len() == DILITHIUM_SECRET_KEY_BYTES,
{
    let (pk, sk) = pqcrypto_dilithium::dilithium2::keypair();
    (pk.as_bytes().to_vec(), sk.as_bytes().to_vec())
}

// ── Errors ───────────────────────────────────────────────────────────────────

#[derive(Clone, Copy, PartialEq, Eq, Debug)]
pub enum SignatureError {
    InvalidSignature,
    InvalidPublicKeyLength { expected: usize, got: usize },
}

// ── Public signing interface ─────────────────────────────────────────────────

/// Sign `message` with a Dilithium2 secret key; returns a detached signature.
pub fn sign(secret_key_bytes: &[u8], message: &[u8]) -> (r: Result<
    DilithiumSignature,
    SignatureError,
>)
    ensures
        r is Ok <==> secret_key_bytes@.len() == DILITHIUM_SECRET_KEY_BYTES,
        r matches Ok(sig) ==> sig@ == dilithium_sig_of(secret_key_bytes@, message@)
            && sig@.len() == DILITHIUM_SIGNATURE_BYTES,
{
    if secret_key_bytes.len() != DILITHIUM_SECRET_KEY_BYTES {
        return Err(SignatureError::InvalidSignature);
    }
    Ok(DilithiumSignature(dilithium_sign_raw(secret_key_bytes, message)))
}

/// Verify a detached Dilithium2 signature.
pub fn verify_signature(
    public_key: &DilithiumPublicKey,
    message: &[u8],
    signature: &DilithiumSignature,
) -> (r: Result<(), SignatureError>)
    ensures
        r is Ok <==> dilithium_verifies(public_key@, message@, signature@),
{
    if dilithium_verify_raw(public_key.0.as_slice(), message, signature.0.as_slice()) {
        Ok(())
    } else {
        Err(SignatureError::InvalidSignature)
    }
}

// ── KeyPair ──────────────────────────────────────────────────────────────────

/// A keypair: Dilithium2 public + secret keys with the derived AccountId.
pub struct KeyPair {
    pub account_id: AccountId,
    pub public_key: DilithiumPublicKey,
    pub secret_key: Vec<u8>,
}

impl KeyPair {
    /// The keys are consistent and the secret key has the algorithm's length.
    pub open spec fn wf(&self) -> bool {
        &&& self.account_id@ == blake3_of(self.public_key@)
        &&& self.secret_key@.len() == DILITHIUM_SECRET_KEY_BYTES
    }

    /// Generate a fresh Dilithium2 keypair.
    pub fn generate() -> (r: KeyPair)
        ensures
            r.wf(),
    {
        let (pk, sk) = dilithium_keypair_raw();
        let account_id = account_id_from_pubkey(pk.as_slice());
        KeyPair { account_id, public_key: DilithiumPublicKey(pk), secret_key: sk }
    }

    /// Sign `message` using this keypair's secret key.
    pub fn sign(&self, message: &[u8]) -> (r: DilithiumSignature)
        requires
            self.wf(),
        ensures
            r@ == dilithium_sig_of(self.secret_key@, message@),
            r@.len() == DILITHIUM_SIGNATURE_BYTES,
    {
        DilithiumSignature(dilithium_sign_raw(self.secret_key.as_slice(), message))
    }

    /// Return a read-only view of the secret key bytes.
    pub fn secret_key_bytes(&self) -> (r: &[u8])
        ensures
            r@ == self.secret_key@,
    {
        self.secret_key.as_slice()
    }

    /// Restore a KeyPair from raw bytes (e.g. loaded from a wallet file).
    pub fn from_raw(pk_bytes: Vec<u8>, sk_bytes: Vec<u8>) -> (r: Result<KeyPair, SignatureError>)
        ensures
            r matches Ok(kp) ==> kp.wf() && kp.public_key@ == pk_bytes@,
            r is Ok <==> sk_bytes@.len() == DILITHIUM_SECRET_KEY_BYTES,
    {
        if sk_bytes.len() != DILITHIUM_SECRET_KEY_BYTES {
            return Err(SignatureError::InvalidSignature);
        }
        let account_id = account_id_from_pubkey(pk_bytes.as_slice());
        Ok(KeyPair { account_id, public_key: DilithiumPublicKey(pk_bytes), secret_key: sk_bytes })
    }
}

// ── ChronxSigner ─────────────────────────────────────────────────────────────

/// Stateless signer helper used by transaction builders.
pub struct ChronxSigner {
    pub public_key: DilithiumPublicKey,
    pub secret_key_bytes: Vec<u8>,
}

impl ChronxSigner {
    pub fn from_secret_key_bytes(sk_bytes: Vec<u8>, pk_bytes: Vec<u8>) -> (r: ChronxSigner)
        ensures
            r.public_key@ == pk_bytes@,
    {
        ChronxSigner { public_key: DilithiumPublicKey(pk_bytes), secret_key_bytes: sk_bytes }
    }

    pub fn sign(&self, message: &[u8]) -> (r: Result<DilithiumSignature, SignatureError>)
        ensures
            r is Ok <==> self.secret_key_bytes@.len() == DILITHIUM_SECRET_KEY_BYTES,
            r matches Ok(sig) ==> sig@ == dilithium_sig_of(self.secret_key_bytes@, message@)
                && sig@.len() == DILITHIUM_SIGNATURE_BYTES,
    {
        sign(self.secret_key_bytes.as_slice(), message)
    }

    pub fn verify(&self, message: &[u8], sig: &DilithiumSignature) -> (r: Result<
        (),
        SignatureError,
    >)
        ensures
            r is Ok <==> dilithium_verifies(self.public_key@, message@, sig@),
    {
        verify_signature(&self.public_key, message, sig)
    }
}

} // verus!
