//! On-chain account state: balances, auth policies and the recovery record.
//!
//! Types holding a `Vec` or `String` field are compared in specifications by
//! the structural-equivalence predicates defined beside them (`..._eqv`),
//! which compare such fields by their views; their `Clone` impls promise
//! exactly that equivalence.

use vstd::prelude::*;

use crate::types::{AccountId, Balance, DilithiumPublicKey, EvidenceHash, Nonce, Timestamp, TxId};

verus! {

// ── AuthPolicy ───────────────────────────────────────────────────────────────

/// Configuration for a RecoveryEnabled account.
#[derive(Clone, Copy, PartialEq, Eq, Debug)]
pub struct RecoveryConfig {
    /// Custom execution delay override (None = protocol default).
    pub execution_delay_override: Option<i64>,
    /// Whether post-recovery spending restrictions are active.
    pub post_recovery_restrictions: bool,
}

impl Default for RecoveryConfig {
    fn default() -> (r: Self)
        ensures
            r.execution_delay_override is None,
            r.post_recovery_restrictions == true,
    {
        RecoveryConfig { execution_delay_override: None, post_recovery_restrictions: true }
    }
}

/// Defines how an account authenticates outgoing transactions.
#[derive(Debug)]
pub enum AuthPolicy {
    /// One Dilithium2 key, one signature required.
    SingleSig { public_key: DilithiumPublicKey },
    /// k-of-n Dilithium2 multisig.
    MultiSig { threshold: u32, public_keys: Vec<DilithiumPublicKey> },
    /// Owner key with protocol-level recovery capability.
    RecoveryEnabled { owner_key: DilithiumPublicKey, recovery_config: RecoveryConfig },
}

/// Element-wise view equality of two public-key sequences.
pub open spec fn pk_seq_eqv(a: Seq<DilithiumPublicKey>, b: Seq<DilithiumPublicKey>) -> bool {
    &&& a.len() == b.len()
    &&& forall|i: int| 0 <= i < a.len() ==> a[i]@ == b[i]@
}

/// Structural equivalence of two auth policies.
pub open spec fn policy_eqv(a: AuthPolicy, b: AuthPolicy) -> bool {
    match (a, b) {
        (
            AuthPolicy::SingleSig { public_key: k1 },
            AuthPolicy::SingleSig { public_key: k2 },
        ) => k1@ == k2@,
        (
            AuthPolicy::MultiSig { threshold: t1, public_keys: ks1 },
            AuthPolicy::MultiSig { threshold: t2, public_keys: ks2 },
        ) => t1 == t2 && pk_seq_eqv(ks1@, ks2@),
        (
            AuthPolicy::RecoveryEnabled { owner_key: k1, recovery_config: c1 },
            AuthPolicy::RecoveryEnabled { owner_key: k2, recovery_config: c2 },
        ) => k1@ == k2@ && c1 == c2,
        _ => false,
    }
}

impl Clone for AuthPolicy {
    fn clone(&self) -> (r: Self)
        ensures
            policy_eqv(r, *self),
    {
        match self {
            AuthPolicy::SingleSig { public_key } => AuthPolicy::SingleSig {
                public_key: public_key.clone(),
            },
            AuthPolicy::MultiSig { threshold, public_keys } => {
                let ks = clone_pk_vec(public_keys);
                AuthPolicy::MultiSig { threshold: *threshold, public_keys: ks }
            },
            AuthPolicy::RecoveryEnabled { owner_key, recovery_config } => {
                AuthPolicy::RecoveryEnabled {
                    owner_key: owner_key.clone(),
                    recovery_config: *recovery_config,
                }
            },
        }
    }
}

/// Copy a vector of public keys, preserving each key's bytes.
pub fn clone_pk_vec(v: &Vec<DilithiumPublicKey>) -> (r: Vec<DilithiumPublicKey>)
    ensures
        pk_seq_eqv(r@, v@),
{
    let mut out: Vec<DilithiumPublicKey> = Vec::new();
    let n: usize = v.len();
    let mut i: usize = 0;
    while i < n
        invariant
            n == v@.len(),
            i <= n,
            out@.len() == i,
            forall|j: int| 0 <= j < i ==> out@[j]@ == v@[j]@,
        decreases n - i,
    {
        out.push(v[i].clone());
        i += 1;
    }
    out
}

// ── RecoveryState ────────────────────────────────────────────────────────────

/// The current decision status for an in-flight account recovery.
#[derive(Clone, Copy, PartialEq, Eq, Debug)]
pub enum RecoveryDecisionStatus {
    Pending,
    Approved,
    Rejected,
}

/// Full recovery state for an account. A recovery begins when a recovery
/// transaction is submitted; verifiers then vote on the evidence.
#[derive(Debug)]
pub struct RecoveryState {
    /// Whether a recovery process is currently in flight for this account.
    pub active: bool,
    /// The public key of the proposed new owner.
    pub proposed_owner_key: Option<DilithiumPublicKey>,
    /// When the recovery was initiated.
    pub recovery_start_time: Option<Timestamp>,
    /// After this time the recovery may be executed.
    pub recovery_execute_after: Option<Timestamp>,
    /// Chronos bonded by the recovery initiator.
    pub recovery_bond: Balance,
    /// Chronos bonded by a challenger disputing the recovery.
    pub challenge_bond: Balance,
    /// Verifier decision status for this recovery.
    pub decision_status: RecoveryDecisionStatus,
    /// Hash of evidence submitted by the recovery initiator.
    pub evidence_hash: Option<EvidenceHash>,
    /// Hash of counter-evidence submitted by a challenger.
    pub counter_evidence_hash: Option<EvidenceHash>,
    /// TxIds of verifier votes in favour of the recovery.
    pub votes_approve: Vec<TxId>,
    /// TxIds of verifier votes against the recovery.
    pub votes_reject: Vec<TxId>,
    /// Whether an active challenge has been raised.
    pub challenge_active: bool,
}

/// View equality of two optional public keys.
pub open spec fn opt_pk_eqv(a: Option<DilithiumPublicKey>, b: Option<DilithiumPublicKey>) -> bool {
    match (a, b) {
        (None, None) => true,
        (Some(k1), Some(k2)) => k1@ == k2@,
        _ => false,
    }
}

/// Structural equivalence of two recovery states.
pub open spec fn recovery_eqv(a: RecoveryState, b: RecoveryState) -> bool {
    &&& a.active == b.active
    &&& opt_pk_eqv(a.proposed_owner_key, b.proposed_owner_key)
    &&& a.recovery_start_time == b.recovery_start_time
    &&& a.recovery_execute_after == b.recovery_execute_after
    &&& a.recovery_bond == b.recovery_bond
    &&& a.challenge_bond == b.challenge_bond
    &&& a.decision_status == b.decision_status
    &&& a.evidence_hash == b.evidence_hash
    &&& a.counter_evidence_hash == b.counter_evidence_hash
    &&& a.votes_approve@ == b.votes_approve@
    &&& a.votes_reject@ == b.votes_reject@
    &&& a.challenge_active == b.challenge_active
}

/// The inactive recovery state written by `Default`.
pub open spec fn recovery_default_spec(r: RecoveryState) -> bool {
    &&& r.active == false
    &&& r.proposed_owner_key is None
    &&& r.recovery_start_time is None
    &&& r.recovery_execute_after is None
    &&& r.recovery_bond == 0
    &&& r.challenge_bond == 0
    &&& r.decision_status == RecoveryDecisionStatus::Pending
    &&& r.evidence_hash is None
    &&& r.counter_evidence_hash is None
    &&& r.votes_approve@ == Seq::<TxId>::empty()
    &&& r.votes_reject@ == Seq::<TxId>::empty()
    &&& r.challenge_active == false
}

impl Default for RecoveryState {
    fn default() -> (r: Self)
        ensures
            recovery_default_spec(r),
    {
        RecoveryState {
            active: false,
            proposed_owner_key: None,
            recovery_start_time: None,
            recovery_execute_after: None,
            recovery_bond: 0,
            challenge_bond: 0,
            decision_status: RecoveryDecisionStatus::Pending,
            evidence_hash: None,
            counter_evidence_hash: None,
            votes_approve: Vec::new(),
            votes_reject: Vec::new(),
            challenge_active: false,
        }
    }
}

/// Copy a vector of transaction ids.
pub fn clone_txid_vec(v: &Vec<TxId>) -> (r: Vec<TxId>)
    ensures
        r@ == v@,
{
    let mut out: Vec<TxId> = Vec::new();
    let n: usize = v.len();
    let mut i: usize = 0;
    while i < n
        invariant
            n == v@.len(),
            i <= n,
            out@ == v@.subrange(0, i as int),
        decreases n - i,
    {
        out.push(v[i]);
        i += 1;
    }
    assert(out@ =~= v@);
    out
}

impl Clone for RecoveryState {
    fn clone(&self) -> (r: Self)
        ensures
            recovery_eqv(r, *self),
    {
        RecoveryState {
            active: self.active,
            proposed_owner_key: match &self.proposed_owner_key {
                None => None,
                Some(k) => Some(k.clone()),
            },
            recovery_start_time: self.recovery_start_time,
            recovery_execute_after: self.recovery_execute_after,
            recovery_bond: self.recovery_bond,
            challenge_bond: self.challenge_bond,
            decision_status: self.decision_status,
            evidence_hash: self.evidence_hash,
            counter_evidence_hash: self.counter_evidence_hash,
            votes_approve: clone_txid_vec(&self.votes_approve),
            votes_reject: clone_txid_vec(&self.votes_reject),
            challenge_active: self.challenge_active,
        }
    }
}

// ── PostRecoveryRestriction ──────────────────────────────────────────────────

/// Temporary spending limits imposed after a recovery finalizes.
#[derive(Clone, Copy, PartialEq, Eq, Debug)]
pub struct PostRecoveryRestriction {
    /// Restriction expires at this timestamp.
    pub expires_at: Timestamp,
    /// Maximum Chronos transferable per day.
    pub daily_limit_chronos: Balance,
    /// Chronos transferred in the current UTC day.
    pub transferred_today: Balance,
    /// UTC date of last transfer (days since epoch).
    pub last_transfer_day: i32,
}

// ── Account ──────────────────────────────────────────────────────────────────

/// Full on-chain account state as held in the state store.
#[derive(Debug)]
pub struct Account {
    pub account_id: AccountId,
    pub balance: Balance,
    pub auth_policy: AuthPolicy,
    pub nonce: Nonce,
    pub recovery_state: RecoveryState,
    pub post_recovery_restriction: Option<PostRecoveryRestriction>,
    /// Amount staked as verifier collateral (0 if not a verifier).
    pub verifier_stake: Balance,
    /// Whether this account is a registered recovery verifier.
    pub is_verifier: bool,
    /// Account struct version. 1 = current.
    pub account_version: u16,
    /// When the first transaction involving this account was seen.
    pub created_at: Option<i64>,
    /// Cached count of pending incoming time-locks (hint only).
    pub incoming_locks_count: u32,
    /// Cached count of pending outgoing time-locks (hint only).
    pub outgoing_locks_count: u32,
    /// Cached sum of pending incoming lock amounts (hint only).
    pub total_locked_incoming_chronos: u128,
    /// Cached sum of pending outgoing lock amounts (hint only).
    pub total_locked_outgoing_chronos: u128,
}

/// Structural equivalence of two accounts.
pub open spec fn account_eqv(a: Account, b: Account) -> bool {
    &&& a.account_id == b.account_id
    &&& a.balance == b.balance
    &&& policy_eqv(a.auth_policy, b.auth_policy)
    &&& a.nonce == b.nonce
    &&& recovery_eqv(a.recovery_state, b.recovery_state)
    &&& a.post_recovery_restriction == b.post_recovery_restriction
    &&& a.verifier_stake == b.verifier_stake
    &&& a.is_verifier == b.is_verifier
    &&& a.account_version == b.account_version
    &&& a.created_at == b.created_at
    &&& a.incoming_locks_count == b.incoming_locks_count
    &&& a.outgoing_locks_count == b.outgoing_locks_count
    &&& a.total_locked_incoming_chronos == b.total_locked_incoming_chronos
    &&& a.total_locked_outgoing_chronos == b.total_locked_outgoing_chronos
}

impl Clone for Account {
    fn clone(&self) -> (r: Self)
        ensures
            account_eqv(r, *self),
    {
        Account {
            account_id: self.account_id,
            balance: self.balance,
            auth_policy: self.auth_policy.clone(),
            nonce: self.nonce,
            recovery_state: self.recovery_state.clone(),
            post_recovery_restriction: self.post_recovery_restriction,
            verifier_stake: self.verifier_stake,
            is_verifier: self.is_verifier,
            account_version: self.account_version,
            created_at: self.created_at,
            incoming_locks_count: self.incoming_locks_count,
            outgoing_locks_count: self.outgoing_locks_count,
            total_locked_incoming_chronos: self.total_locked_incoming_chronos,
            total_locked_outgoing_chronos: self.total_locked_outgoing_chronos,
        }
    }
}

impl Account {
    /// Spendable balance as a specification: balance minus verifier stake,
    /// saturating at zero.
    pub open spec fn spec_spendable(&self) -> Balance {
        if self.balance >= self.verifier_stake {
            (self.balance - self.verifier_stake) as u128
        } else {
            0
        }
    }

    /// Create a new account with zero balance and inactive recovery state.
    pub fn new(account_id: AccountId, auth_policy: AuthPolicy) -> (r: Self)
        ensures
            r.account_id == account_id,
            r.balance == 0,
            r.auth_policy == auth_policy,
            r.nonce == 0,
            recovery_default_spec(r.recovery_state),
            r.post_recovery_restriction is None,
            r.verifier_stake == 0,
            r.is_verifier == false,
            r.account_version == 1,
            r.created_at is None,
            r.incoming_locks_count == 0,
            r.outgoing_locks_count == 0,
            r.total_locked_incoming_chronos == 0,
            r.total_locked_outgoing_chronos == 0,
    {
        Account {
            account_id,
            balance: 0,
            auth_policy,
            nonce: 0,
            recovery_state: RecoveryState::default(),
            post_recovery_restriction: None,
            verifier_stake: 0,
            is_verifier: false,
            account_version: 1,
            created_at: None,
            incoming_locks_count: 0,
            outgoing_locks_count: 0,
            total_locked_incoming_chronos: 0,
            total_locked_outgoing_chronos: 0,
        }
    }

    /// Available spendable balance (total minus verifier stake).
    pub fn spendable_balance(&self) -> (r: Balance)
        ensures
            r == self.spec_spendable(),
    {
        if self.balance >= self.verifier_stake {
            self.balance - self.verifier_stake
        } else {
            0
        }
    }
}

} // verus!
