//! Time-lock contracts: the persisted record and its status state machine.

use vstd::prelude::*;

use crate::strutil::{opt_bytes_eqv, opt_str_eqv, opt_str_vec_eqv, clone_string_vec};
use crate::types::{AccountId, Balance, DilithiumPublicKey, Timestamp, TxId, clone_bytes};

verus! {

// ── Status & policy enums ────────────────────────────────────────────────────

/// Why a claim was slashed.
#[derive(Clone, Copy, PartialEq, Eq, Debug)]
pub enum SlashReason {
    /// Revealed payload hash did not match the committed hash.
    RevealHashMismatch,
    /// Agent did not reveal within the reveal window.
    RevealTimeout,
    /// A challenger contested the revealed claim and won.
    SuccessfulChallenge,
    /// Required compliance certificate was absent or unapproved.
    InvalidComplianceCert,
    /// Ambiguous lock timed out without a valid outcome certificate.
    AmbiguityTimeout,
}

/// Status of a time-lock contract.
///
/// Version-0 locks use Pending → Claimed directly. Version-1 locks (with a
/// claim policy) run the claims state machine:
/// Pending → ClaimOpen → ClaimCommitted → ClaimRevealed → ClaimFinalized | ClaimSlashed,
/// with ClaimChallenged between reveal and a slashing finalization, and
/// Ambiguous for matured locks without a unique beneficiary identifier.
#[derive(Clone, Copy, PartialEq, Eq, Debug)]
pub enum TimeLockStatus {
    /// Locked, awaiting the unlock timestamp.
    Pending,
    /// Claimed directly by the recipient after maturity (version-0 path).
    Claimed { claimed_at: Timestamp },
    /// Listed for secondary-market sale (scaffold; inactive).
    ForSale { ask_price: Balance, listed_at: Timestamp },
    /// Matured but no unique identifier found; awaiting an outcome cert.
    Ambiguous { flagged_at: Timestamp },
    /// A claim was opened; value and lane are frozen in the claim state.
    ClaimOpen { opened_at: Timestamp },
    /// An agent committed a hash and a bond.
    ClaimCommitted { committed_at: Timestamp },
    /// The agent revealed the payload and certificates.
    ClaimRevealed { revealed_at: Timestamp },
    /// A challenger contested the reveal; awaiting finalization.
    ClaimChallenged { challenged_at: Timestamp },
    /// Claim resolved; funds sent to the beneficiary.
    ClaimFinalized { paid_to: AccountId, finalized_at: Timestamp },
    /// Claim was slashed.
    ClaimSlashed { reason: SlashReason, slashed_at: Timestamp },
    /// Cancelled by the sender within the cancellation window.
    Cancelled { cancelled_at: Timestamp },
}

impl TimeLockStatus {
    /// True if the lock is in a terminal state: no further transitions.
    pub open spec fn spec_is_terminal(&self) -> bool {
        match *self {
            TimeLockStatus::Claimed { .. } => true,
            TimeLockStatus::ClaimFinalized { .. } => true,
            TimeLockStatus::ClaimSlashed { .. } => true,
            TimeLockStatus::Cancelled { .. } => true,
            _ => false,
        }
    }

    /// True if the lock is in a terminal state (no further transitions).
    pub fn is_terminal(&self) -> (r: bool)
        ensures
            r == self.spec_is_terminal(),
    {
        match self {
            TimeLockStatus::Claimed { .. } => true,
            TimeLockStatus::ClaimFinalized { .. } => true,
            TimeLockStatus::ClaimSlashed { .. } => true,
            TimeLockStatus::Cancelled { .. } => true,
            _ => false,
        }
    }
}

/// What happens to lock funds if the beneficiary never claims.
#[derive(Clone, Copy, PartialEq, Eq, Debug)]
pub enum ExpiryPolicy {
    /// Return the locked funds to the original sender.
    ReturnToSender,
    /// Send funds to the protocol null address (burn).
    Burn,
    /// Redirect to a specified fallback account.
    RedirectTo(AccountId),
}

/// Recurring schedule for future repeating locks (scaffold; inactive).
#[derive(Clone, Copy, PartialEq, Eq, Debug)]
pub enum RecurringPolicy {
    Off,
    Weekly { count: u32 },
    Monthly { count: u32 },
    Annual { count: u32 },
}

/// What happens to the locked funds if a claim window expires unclaimed
/// (scaffold; inactive).
#[derive(Clone, Copy, PartialEq, Eq, Debug)]
pub enum UnclaimedAction {
    RevertToSender,
    Burn,
    ForwardTo(AccountId),
}

/// Future multi-recipient split lock (scaffold; inactive).
/// `recipients` is a list of (AccountId, basis_points); the basis points must
/// sum to exactly 10 000.
#[derive(Clone, PartialEq, Eq, Debug)]
pub struct SplitPolicy {
    pub recipients: Vec<(AccountId, u16)>,
}

/// View equality of two optional split policies.
pub open spec fn opt_split_eqv(a: Option<SplitPolicy>, b: Option<SplitPolicy>) -> bool {
    match (a, b) {
        (None, None) => true,
        (Some(p1), Some(p2)) => p1.recipients@ == p2.recipients@,
        _ => false,
    }
}

// ── TimeLockContract ─────────────────────────────────────────────────────────

/// A time-lock contract held in the state store, keyed by the TxId of the
/// creating transaction. The lock exclusively owns `amount` Chronos until a
/// terminal status releases the funds.
#[derive(Debug)]
pub struct TimeLockContract {
    pub id: TxId,
    pub sender: AccountId,
    /// Recipient's Dilithium2 public key (pre-registered at creation time).
    pub recipient_key: DilithiumPublicKey,
    /// AccountId derived from `recipient_key`.
    pub recipient_account_id: AccountId,
    pub amount: Balance,
    /// Unlock timestamp (UTC Unix seconds).
    pub unlock_at: Timestamp,
    pub created_at: Timestamp,
    pub status: TimeLockStatus,
    /// Optional human-readable memo (at most 256 bytes).
    pub memo: Option<String>,
    /// Schema version: 0 = legacy direct claim, 1 = claims framework.
    pub lock_version: u16,
    /// Reference to an on-chain claim policy (None = direct-claim path).
    pub claim_policy: Option<u64>,
    /// Commitment to beneficiary identity; disambiguates recipients.
    pub beneficiary_anchor_commitment: Option<[u8; 32]>,
    /// Organisation identifier; its absence triggers ambiguity mode.
    pub org_identifier: Option<String>,
    /// Seconds after creation in which the sender may cancel. None = irrevocable.
    pub cancellation_window_secs: Option<u32>,
    /// Flag for off-chain notification systems; no consensus meaning.
    pub notify_recipient: bool,
    /// User-defined labels (at most 5, each at most 32 characters).
    pub tags: Option<Vec<String>>,
    /// If true, memo and amount should be hidden from public explorers.
    pub private: bool,
    /// What happens to funds if the lock expires unclaimed.
    pub expiry_policy: Option<ExpiryPolicy>,
    /// Future multi-recipient split (scaffold; inactive).
    pub split_policy: Option<SplitPolicy>,
    /// Maximum failed claim attempts before ambiguity mode. None = unlimited.
    pub claim_attempts_max: Option<u8>,
    /// Recurring lock schedule (scaffold; inactive).
    pub recurring: Option<RecurringPolicy>,
    /// Raw bytes reserved for future protocol extensions (at most 1 KiB).
    pub extension_data: Option<Vec<u8>>,
}

/// Structural equivalence of two time-lock contracts.
pub open spec fn lock_eqv(a: TimeLockContract, b: TimeLockContract) -> bool {
    &&& a.id == b.id
    &&& a.sender == b.sender
    &&& a.recipient_key@ == b.recipient_key@
    &&& a.recipient_account_id == b.recipient_account_id
    &&& a.amount == b.amount
    &&& a.unlock_at == b.unlock_at
    &&& a.created_at == b.created_at
    &&& a.status == b.status
    &&& opt_str_eqv(a.memo, b.memo)
    &&& a.lock_version == b.lock_version
    &&& a.claim_policy == b.claim_policy
    &&& a.beneficiary_anchor_commitment == b.beneficiary_anchor_commitment
    &&& opt_str_eqv(a.org_identifier, b.org_identifier)
    &&& a.cancellation_window_secs == b.cancellation_window_secs
    &&& a.notify_recipient == b.notify_recipient
    &&& opt_str_vec_eqv(a.tags, b.tags)
    &&& a.private == b.private
    &&& a.expiry_policy == b.expiry_policy
    &&& opt_split_eqv(a.split_policy, b.split_policy)
    &&& a.claim_attempts_max == b.claim_attempts_max
    &&& a.recurring == b.recurring
    &&& opt_bytes_eqv(a.extension_data, b.extension_data)
}

impl Clone for TimeLockContract {
    fn clone(&self) -> (r: Self)
        ensures
            lock_eqv(r, *self),
    {
        TimeLockContract {
            id: self.id,
            sender: self.sender,
            recipient_key: self.recipient_key.clone(),
            recipient_account_id: self.recipient_account_id,
            amount: self.amount,
            unlock_at: self.unlock_at,
            created_at: self.created_at,
            status: self.status,
            memo: match &self.memo {
                None => None,
                Some(s) => Some(s.clone()),
            },
            lock_version: self.lock_version,
            claim_policy: self.claim_policy,
            beneficiary_anchor_commitment: self.beneficiary_anchor_commitment,
            org_identifier: match &self.org_identifier {
                None => None,
                Some(s) => Some(s.clone()),
            },
            cancellation_window_secs: self.cancellation_window_secs,
            notify_recipient: self.notify_recipient,
            tags: match &self.tags {
                None => None,
                Some(t) => Some(clone_string_vec(t)),
            },
            private: self.private,
            expiry_policy: self.expiry_policy,
            split_policy: match &self.split_policy {
                None => None,
                Some(p) => Some(SplitPolicy { recipients: clone_recipients(&p.recipients) }),
            },
            claim_attempts_max: self.claim_attempts_max,
            recurring: self.recurring,
            extension_data: match &self.extension_data {
                None => None,
                Some(v) => Some(clone_bytes(v)),
            },
        }
    }
}

/// Copy a split-policy recipient list.
pub fn clone_recipients(v: &Vec<(AccountId, u16)>) -> (r: Vec<(AccountId, u16)>)
    ensures
        r@ == v@,
{
    let mut out: Vec<(AccountId, u16)> = Vec::new();
    let n: usize = v.len();
    let mut i: usize = 0;
    while i < n
        invariant
            n == v@.len(),
            i <= n,
            out@ == v@.subrange(0, i as int),
        decreases n - i,
    {
        out.push(v[i]);
        i += 1;
    }
    assert(out@ =~= v@);
    out
}

} // verus!
