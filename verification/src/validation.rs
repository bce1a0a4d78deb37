//! Vertex validation (parents, PoW, body-hash integrity) and signature
//! validation against a stored auth policy.

use vstd::prelude::*;

use crate::account::AuthPolicy;
use crate::constants::{DAG_MAX_PARENTS, DAG_MIN_PARENTS};
use crate::crypto::{blake3_of, tx_id_from_body};
use crate::errors::ChronxError;
use crate::pow::{spec_pow_ok, verify_pow};
use crate::sig::{dilithium_verifies, verify_signature};
use crate::store::StateDb;
use crate::transaction::{spec_body_bytes, AuthScheme, Transaction};
use crate::types::{DilithiumPublicKey, DilithiumSignature};

verus! {

// ── Vertex validation ────────────────────────────────────────────────────────

/// Parent-count bounds hold (a vertex with no parents is genesis and is
/// exempt).
pub open spec fn spec_parent_count_ok(t: Transaction) -> bool {
    t.parents@.len() == 0 || (DAG_MIN_PARENTS <= t.parents@.len() <= DAG_MAX_PARENTS)
}

/// Every claimed parent exists in the store.
pub open spec fn spec_parents_known(t: Transaction, db: StateDb) -> bool {
    forall|i: int| 0 <= i < t.parents@.len() ==> db.has_vertex(#[trigger] t.parents@[i]@)
}

/// The stored TxId matches the content hash of the canonical body bytes.
pub open spec fn spec_tx_id_ok(t: Transaction) -> bool {
    t.tx_id@ == blake3_of(spec_body_bytes(t))
}

/// The full vertex acceptance predicate: parent shape, parent existence,
/// proof-of-work (skipped for genesis), and body-hash integrity.
pub open spec fn spec_vertex_valid(t: Transaction, difficulty: u8, db: StateDb) -> bool {
    &&& spec_parent_count_ok(t)
    &&& spec_parents_known(t, db)
    &&& (t.parents@.len() == 0 || spec_pow_ok(spec_body_bytes(t), t.pow_nonce, difficulty))
    &&& spec_tx_id_ok(t)
}

/// Validate a transaction vertex before accepting it into the DAG.
///
/// Ordered checks: parent count, parent existence, PoW, TxId integrity.
/// A vertex with no parents is genesis: parent and PoW checks are skipped.
pub fn validate_vertex(tx: &Transaction, pow_difficulty: u8, db: &StateDb) -> (r: Result<
    (),
    ChronxError,
>)
    ensures
        r is Ok <==> spec_vertex_valid(*tx, pow_difficulty, *db),
        match r {
            Ok(_) => true,
            Err(e) => match e {
                ChronxError::TooManyParents { max, got } => max == DAG_MAX_PARENTS && got
                    == tx.parents@.len() && tx.parents@.len() > DAG_MAX_PARENTS,
                ChronxError::UnknownParent(p) => spec_parent_count_ok(*tx)
                    && !db.has_vertex(p@) && (exists|i: int|
                    0 <= i < tx.parents@.len() && tx.parents@[i] == p && (forall|j: int|
                        0 <= j < i ==> db.has_vertex(#[trigger] tx.parents@[j]@))),
                ChronxError::InvalidPoW => spec_parent_count_ok(*tx) && spec_parents_known(
                    *tx,
                    *db,
                ) && tx.parents@.len() > 0 && !spec_pow_ok(
                    spec_body_bytes(*tx),
                    tx.pow_nonce,
                    pow_difficulty,
                ),
                ChronxError::InvalidSignature => spec_parent_count_ok(*tx) && spec_parents_known(
                    *tx,
                    *db,
                ) && (tx.parents@.len() == 0 || spec_pow_ok(
                    spec_body_bytes(*tx),
                    tx.pow_nonce,
                    pow_difficulty,
                )) && !spec_tx_id_ok(*tx),
                _ => false,
            },
        },
{
    let is_genesis = tx.parents.len() == 0;

    if !is_genesis {
        if tx.parents.len() > DAG_MAX_PARENTS {
            return Err(ChronxError::TooManyParents { max: DAG_MAX_PARENTS, got: tx.parents.len() });
        }
        let n: usize = tx.parents.len();
        let mut i: usize = 0;
        while i < n
            invariant
                n == tx.parents@.len(),
                DAG_MIN_PARENTS <= n <= DAG_MAX_PARENTS,
                i <= n,
                forall|j: int| 0 <= j < i ==> db.has_vertex(#[trigger] tx.parents@[j]@),
            decreases n - i,
        {
            if !db.vertex_exists(&tx.parents[i]) {
                let p = tx.parents[i];
                proof {
                    assert(tx.parents@[i as int] == p);
                    assert(!db.has_vertex(p@));
                    assert(!spec_parents_known(*tx, *db));
                    assert(spec_parent_count_ok(*tx));
                    assert(exists|k: int|
                        0 <= k < tx.parents@.len() && tx.parents@[k] == p && (forall|j: int|
                            0 <= j < k ==> db.has_vertex(#[trigger] tx.parents@[j]@))) by {
                        assert(0 <= i < tx.parents@.len() && tx.parents@[i as int] == p && (
                        forall|j: int|
                            0 <= j < i ==> db.has_vertex(#[trigger] tx.parents@[j]@)));
                    }
                }
                return Err(ChronxError::UnknownParent(p));
            }
            i += 1;
        }
    }

    let body_bytes = tx.body_bytes();
    if !is_genesis {
        if !verify_pow(body_bytes.as_slice(), tx.pow_nonce, pow_difficulty) {
            return Err(ChronxError::InvalidPoW);
        }
    }

    let expected_id = tx_id_from_body(body_bytes.as_slice());
    if !expected_id.same(&tx.tx_id) {
        // The body was tampered with relative to the claimed id.
        return Err(ChronxError::InvalidSignature);
    }

    Ok(())
}

// ── Signature validation ─────────────────────────────────────────────────────

/// Whether the key at `j` has already been consumed: some used entry holds
/// the same key bytes. Distinctness is by key bytes, so a duplicated key in
/// the set can be matched at most once.
pub open spec fn spec_key_used(keys: Seq<DilithiumPublicKey>, used: Seq<bool>, j: int) -> bool {
    exists|i: int| 0 <= i < keys.len() && used[i] && keys[i]@ == keys[j]@
}

/// The index of the first key, from `j` on, whose bytes are not yet consumed
/// and which verifies the signature; -1 if none does.
pub open spec fn spec_match_idx(
    body: Seq<u8>,
    sig: Seq<u8>,
    keys: Seq<DilithiumPublicKey>,
    used: Seq<bool>,
    j: int,
) -> int
    decreases keys.len() - j,
{
    if j < 0 || j >= keys.len() {
        -1
    } else if !spec_key_used(keys, used, j) && dilithium_verifies(keys[j]@, body, sig) {
        j
    } else {
        spec_match_idx(body, sig, keys, used, j + 1)
    }
}

/// The number of signatures that greedily match distinct keys: each
/// signature consumes the first not-yet-consumed key that verifies it, and
/// key bytes, once matched, are never counted again, so a key listed twice
/// still counts once.
pub open spec fn spec_msig_count(
    body: Seq<u8>,
    sigs: Seq<DilithiumSignature>,
    keys: Seq<DilithiumPublicKey>,
    used: Seq<bool>,
) -> int
    decreases sigs.len(),
{
    if sigs.len() == 0 {
        0
    } else {
        let j = spec_match_idx(body, sigs[0]@, keys, used, 0);
        if j >= 0 {
            1 + spec_msig_count(body, sigs.drop_first(), keys, used.update(j, true))
        } else {
            spec_msig_count(body, sigs.drop_first(), keys, used)
        }
    }
}

/// An all-false `used` mask of the given length.
pub open spec fn spec_all_false(n: int) -> Seq<bool> {
    Seq::new(n as nat, |i: int| false)
}

/// Whether the transaction's signatures satisfy the stored auth policy:
/// SingleSig and RecoveryEnabled need the first signature to verify under the
/// single registered key; MultiSig needs the scheme's declared `k` to agree
/// with the stored `threshold`, at least `threshold` signatures present, and
/// at least `threshold` greedy matches against byte-distinct keys; a
/// policy/scheme mismatch never validates.
pub open spec fn spec_signatures_valid(t: Transaction, policy: AuthPolicy) -> bool {
    let body = spec_body_bytes(t);
    match (policy, t.auth_scheme) {
        (AuthPolicy::SingleSig { public_key }, AuthScheme::SingleSig) => t.signatures@.len() >= 1
            && dilithium_verifies(public_key@, body, t.signatures@[0]@),
        (
            AuthPolicy::MultiSig { threshold, public_keys },
            AuthScheme::MultiSig { k, n },
        ) => k == threshold && t.signatures@.len() >= threshold && spec_msig_count(
            body,
            t.signatures@,
            public_keys@,
            spec_all_false(public_keys@.len() as int),
        ) >= threshold,
        (AuthPolicy::RecoveryEnabled { owner_key, recovery_config }, AuthScheme::SingleSig) => t
            .signatures@.len() >= 1 && dilithium_verifies(owner_key@, body, t.signatures@[0]@),
        _ => false,
    }
}

/// Validate signatures against the account's stored auth policy.
pub fn validate_signatures(tx: &Transaction, auth_policy: &AuthPolicy) -> (r: Result<
    (),
    ChronxError,
>)
    ensures
        r is Ok <==> spec_signatures_valid(*tx, *auth_policy),
        r matches Err(e) ==> match e {
            ChronxError::InvalidSignature => {
                let single_key = match *auth_policy {
                    AuthPolicy::SingleSig { public_key } => Some(public_key),
                    AuthPolicy::RecoveryEnabled { owner_key, recovery_config } => Some(owner_key),
                    _ => None,
                };
                &&& tx.auth_scheme is SingleSig
                &&& single_key is Some
                &&& (tx.signatures@.len() == 0 || !dilithium_verifies(
                    single_key.unwrap()@,
                    spec_body_bytes(*tx),
                    tx.signatures@[0]@,
                ))
            },
            ChronxError::MultisigThresholdNotMet { need, got } => {
                &&& *auth_policy matches AuthPolicy::MultiSig { threshold, public_keys }
                &&& tx.auth_scheme matches AuthScheme::MultiSig { k, n }
                &&& k == threshold
                &&& need == threshold
                &&& if tx.signatures@.len() < threshold {
                    got == tx.signatures@.len()
                } else {
                    let c = spec_msig_count(
                        spec_body_bytes(*tx),
                        tx.signatures@,
                        public_keys@,
                        spec_all_false(public_keys@.len() as int),
                    );
                    got == c as u32 && c < threshold
                }
            },
            ChronxError::AuthPolicyViolation => match (*auth_policy, tx.auth_scheme) {
                (AuthPolicy::SingleSig { public_key }, AuthScheme::SingleSig) => false,
                (
                    AuthPolicy::RecoveryEnabled { owner_key, recovery_config },
                    AuthScheme::SingleSig,
                ) => false,
                (
                    AuthPolicy::MultiSig { threshold, public_keys },
                    AuthScheme::MultiSig { k, n },
                ) => k != threshold,
                _ => true,
            },
            _ => false,
        },
{
    let body_bytes = tx.body_bytes();
    let body = body_bytes.as_slice();

    match (auth_policy, &tx.auth_scheme) {
        (AuthPolicy::SingleSig { public_key }, AuthScheme::SingleSig) => {
            if tx.signatures.len() == 0 {
                return Err(ChronxError::InvalidSignature);
            }
            match verify_signature(public_key, body, &tx.signatures[0]) {
                Ok(_) => Ok(()),
                Err(_) => Err(ChronxError::InvalidSignature),
            }
        },
        (AuthPolicy::MultiSig { threshold, public_keys }, AuthScheme::MultiSig { k, n: _ }) => {
            if *k != *threshold {
                // A scheme that declares a different quorum than the stored
                // policy is a policy violation, whatever signatures it holds.
                return Err(ChronxError::AuthPolicyViolation);
            }
            if tx.signatures.len() < (*threshold) as usize {
                return Err(ChronxError::MultisigThresholdNotMet {
                    need: *threshold,
                    got: tx.signatures.len() as u32,
                });
            }
            let count = msig_count(body, &tx.signatures, public_keys);
            if count < (*threshold) as usize {
                assert(count < u32::MAX);
                return Err(ChronxError::MultisigThresholdNotMet {
                    need: *threshold,
                    got: count as u32,
                });
            }
            Ok(())
        },
        (AuthPolicy::RecoveryEnabled { owner_key, recovery_config: _ }, AuthScheme::SingleSig) => {
            if tx.signatures.len() == 0 {
                return Err(ChronxError::InvalidSignature);
            }
            match verify_signature(owner_key, body, &tx.signatures[0]) {
                Ok(_) => Ok(()),
                Err(_) => Err(ChronxError::InvalidSignature),
            }
        },
        _ => Err(ChronxError::AuthPolicyViolation),
    }
}

/// Whether the key at `j` shares its bytes with some already-used key.
fn key_seen(used: &Vec<bool>, keys: &Vec<DilithiumPublicKey>, j: usize) -> (r: bool)
    requires
        used@.len() == keys@.len(),
        j < keys@.len(),
    ensures
        r == spec_key_used(keys@, used@, j as int),
{
    let n: usize = keys.len();
    let mut i: usize = 0;
    while i < n
        invariant
            n == keys@.len(),
            used@.len() == keys@.len(),
            j < keys@.len(),
            i <= n,
            forall|t: int| 0 <= t < i ==> !(used@[t] && keys@[t]@ == keys@[j as int]@),
        decreases n - i,
    {
        if used[i] {
            if keys[i].same(&keys[j]) {
                return true;
            }
        }
        i += 1;
    }
    false
}

/// Count the greedy distinct-key matches for a set of signatures.
fn msig_count(body: &[u8], sigs: &Vec<DilithiumSignature>, keys: &Vec<DilithiumPublicKey>) -> (r:
    usize)
    ensures
        r == spec_msig_count(body@, sigs@, keys@, spec_all_false(keys@.len() as int)),
{
    let mut used: Vec<bool> = Vec::new();
    let kn: usize = keys.len();
    let mut t: usize = 0;
    while t < kn
        invariant
            t <= kn,
            used@.len() == t,
            forall|j: int| 0 <= j < t ==> used@[j] == false,
        decreases kn - t,
    {
        used.push(false);
        t += 1;
    }
    assert(used@ =~= spec_all_false(keys@.len() as int));

    let mut count: usize = 0;
    let n: usize = sigs.len();
    let mut i: usize = 0;
    proof {
        assert(sigs@.skip(0) =~= sigs@);
        lemma_msig_count_nonneg(body@, sigs@, keys@, used@);
    }
    while i < n
        invariant
            n == sigs@.len(),
            i <= n,
            used@.len() == keys@.len(),
            count <= i,
            count + spec_msig_count(body@, sigs@.skip(i as int), keys@, used@)
                == spec_msig_count(
                body@,
                sigs@,
                keys@,
                spec_all_false(keys@.len() as int),
            ),
            spec_msig_count(body@, sigs@.skip(i as int), keys@, used@) >= 0,
        decreases n - i,
    {
        proof {
            lemma_msig_count_nonneg(body@, sigs@.skip(i as int), keys@, used@);
        }
        let ghost used0 = used@;
        let kcount: usize = keys.len();
        let mut j: usize = 0;
        let mut found: bool = false;
        while j < kcount && !found
            invariant
                kcount == keys@.len(),
                used@.len() == keys@.len(),
                j <= kcount,
                i < n == sigs@.len(),
                !found ==> used@ == used0,
                !found ==> spec_match_idx(body@, sigs@[i as int]@, keys@, used0, 0)
                    == spec_match_idx(body@, sigs@[i as int]@, keys@, used0, j as int),
                found ==> (0 < j <= kcount && spec_match_idx(
                    body@,
                    sigs@[i as int]@,
                    keys@,
                    used0,
                    0,
                ) == j - 1 && used@ == used0.update((j - 1) as int, true)),
            decreases kcount - j,
        {
            let seen = key_seen(&used, keys, j);
            if !seen {
                if crate::sig::verify_signature(&keys[j], body, &sigs[i]).is_ok() {
                    vstd::pervasive::VecAdditionalExecFns::set(&mut used, j, true);
                    found = true;
                }
            }
            j += 1;
        }
        proof {
            if !found {
                assert(spec_match_idx(body@, sigs@[i as int]@, keys@, used0, kcount as int) == -1);
            }
            assert(sigs@.skip(i as int).drop_first() =~= sigs@.skip((i + 1) as int));
            assert(sigs@.skip(i as int)[0] == sigs@[i as int]);
            lemma_msig_count_nonneg(body@, sigs@.skip((i + 1) as int), keys@, used@);
        }
        if found {
            count += 1;
        }
        i += 1;
    }
    proof {
        assert(sigs@.skip(n as int) =~= Seq::<DilithiumSignature>::empty());
    }
    count
}

proof fn lemma_msig_count_nonneg(
    body: Seq<u8>,
    sigs: Seq<DilithiumSignature>,
    keys: Seq<DilithiumPublicKey>,
    used: Seq<bool>,
)
    ensures
        0 <= spec_msig_count(body, sigs, keys, used) <= sigs.len(),
    decreases sigs.len(),
{
    if sigs.len() > 0 {
        let j = spec_match_idx(body, sigs[0]@, keys, used, 0);
        if j >= 0 {
            lemma_msig_count_nonneg(body, sigs.drop_first(), keys, used.update(j, true));
        } else {
            lemma_msig_count_nonneg(body, sigs.drop_first(), keys, used);
        }
    }
}

} // verus!
