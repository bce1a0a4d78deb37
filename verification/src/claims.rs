//! Data structures for the claims resolution framework: lanes, per-lock claim
//! state, provider and schema registries, and oracle records.

use vstd::prelude::*;

use crate::constants::CHRONOS_PER_KX;
use crate::strutil::str_seq_eqv;
use crate::types::{AccountId, Balance, DilithiumSignature, Timestamp, TxId, clone_bytes};

verus! {

/// Opaque on-chain identifier for a claim policy record.
pub type PolicyId = u64;

/// Opaque on-chain identifier for a certificate schema record.
pub type SchemaId = u64;

// ── Lane ─────────────────────────────────────────────────────────────────────

/// Claim lane determined by fiat-equivalent value at claim-open time. The
/// lane governs bond sizes and time windows.
#[derive(Clone, Copy, PartialEq, Eq, Debug)]
pub enum ClaimLane {
    /// Very small value; streamlined process.
    Trivial,
    /// Mid-tier value; standard certificate requirements.
    Standard,
    /// High value; elevated bonds and longer windows.
    Elevated,
}

impl ClaimLane {
    /// The lane stored as a small integer: 0 Trivial, 1 Standard, else Elevated.
    pub open spec fn spec_from_u8(v: u8) -> ClaimLane {
        if v == 0 {
            ClaimLane::Trivial
        } else if v == 1 {
            ClaimLane::Standard
        } else {
            ClaimLane::Elevated
        }
    }

    pub fn from_u8(v: u8) -> (r: Self)
        ensures
            r == ClaimLane::spec_from_u8(v),
    {
        if v == 0 {
            ClaimLane::Trivial
        } else if v == 1 {
            ClaimLane::Standard
        } else {
            ClaimLane::Elevated
        }
    }

    /// The small-integer tag of this lane.
    pub fn to_u8(&self) -> (r: u8)
        ensures
            ClaimLane::spec_from_u8(r) == *self,
            r <= 2,
    {
        match self {
            ClaimLane::Trivial => 0,
            ClaimLane::Standard => 1,
            ClaimLane::Elevated => 2,
        }
    }
}

// ── Certificate ──────────────────────────────────────────────────────────────

/// A signed certificate submitted as part of a claim reveal.
#[derive(Debug)]
pub struct Certificate {
    /// Which schema this certificate conforms to.
    pub schema_id: SchemaId,
    /// The issuing provider's AccountId.
    pub issuer: AccountId,
    /// Opaque certificate payload (schema-specific).
    pub payload: Vec<u8>,
    /// Provider's signature over the payload.
    pub signature: DilithiumSignature,
}

/// Structural equivalence of two certificates.
pub open spec fn cert_eqv(a: Certificate, b: Certificate) -> bool {
    &&& a.schema_id == b.schema_id
    &&& a.issuer == b.issuer
    &&& a.payload@ == b.payload@
    &&& a.signature@ == b.signature@
}

/// Element-wise equivalence of two certificate sequences.
pub open spec fn cert_seq_eqv(a: Seq<Certificate>, b: Seq<Certificate>) -> bool {
    &&& a.len() == b.len()
    &&& forall|i: int| 0 <= i < a.len() ==> cert_eqv(a[i], b[i])
}

impl Clone for Certificate {
    fn clone(&self) -> (r: Self)
        ensures
            cert_eqv(r, *self),
    {
        Certificate {
            schema_id: self.schema_id,
            issuer: self.issuer,
            payload: clone_bytes(&self.payload),
            signature: self.signature.clone(),
        }
    }
}

/// Copy a vector of certificates.
pub fn clone_cert_vec(v: &Vec<Certificate>) -> (r: Vec<Certificate>)
    ensures
        cert_seq_eqv(r@, v@),
{
    let mut out: Vec<Certificate> = Vec::new();
    let n: usize = v.len();
    let mut i: usize = 0;
    while i < n
        invariant
            n == v@.len(),
            i <= n,
            out@.len() == i,
            forall|j: int| 0 <= j < i ==> cert_eqv(out@[j], v@[j]),
        decreases n - i,
    {
        out.push(v[i].clone());
        i += 1;
    }
    out
}

// ── ClaimState ───────────────────────────────────────────────────────────────

/// Per-lock claim state, keyed by the lock's TxId. The lock's status enum
/// tracks the phase; this record carries bonds, commits, reveals and
/// challenges.
#[derive(Debug)]
pub struct ClaimState {
    /// Lock this claim is for (the primary key).
    pub lock_id: TxId,
    /// Lane assigned when the claim was opened (0/1/2).
    pub lane: u8,
    /// Fiat value of the lock in cents at claim-open time.
    pub v_claim_snapshot: u64,
    /// When the claim was opened.
    pub opened_at: Timestamp,
    /// Agent that submitted the commit.
    pub agent_id: Option<AccountId>,
    /// Commit hash submitted by the agent.
    pub commit_hash: Option<[u8; 32]>,
    /// Bond posted by the agent (Chronos).
    pub commit_bond: Balance,
    /// When the commit was submitted.
    pub committed_at: Option<Timestamp>,
    /// Payload revealed by the agent.
    pub revealed_payload: Option<Vec<u8>>,
    /// Salt used in the commit hash `H(payload ‖ salt)`.
    pub revealed_salt: Option<[u8; 32]>,
    /// Certificates submitted with the reveal.
    pub certificates: Vec<Certificate>,
    /// When the reveal was submitted.
    pub revealed_at: Option<Timestamp>,
    /// Challenger account.
    pub challenger: Option<AccountId>,
    /// Bond posted by the challenger.
    pub challenge_bond: Balance,
    /// Hash of evidence submitted by the challenger.
    pub challenge_evidence_hash: Option<[u8; 32]>,
    /// When the challenge was submitted.
    pub challenged_at: Option<Timestamp>,
}

/// Structural equivalence of two claim states.
pub open spec fn claim_eqv(a: ClaimState, b: ClaimState) -> bool {
    &&& a.lock_id == b.lock_id
    &&& a.lane == b.lane
    &&& a.v_claim_snapshot == b.v_claim_snapshot
    &&& a.opened_at == b.opened_at
    &&& a.agent_id == b.agent_id
    &&& a.commit_hash == b.commit_hash
    &&& a.commit_bond == b.commit_bond
    &&& a.committed_at == b.committed_at
    &&& match (a.revealed_payload, b.revealed_payload) {
        (None, None) => true,
        (Some(p1), Some(p2)) => p1@ == p2@,
        _ => false,
    }
    &&& a.revealed_salt == b.revealed_salt
    &&& cert_seq_eqv(a.certificates@, b.certificates@)
    &&& a.revealed_at == b.revealed_at
    &&& a.challenger == b.challenger
    &&& a.challenge_bond == b.challenge_bond
    &&& a.challenge_evidence_hash == b.challenge_evidence_hash
    &&& a.challenged_at == b.challenged_at
}

impl Clone for ClaimState {
    fn clone(&self) -> (r: Self)
        ensures
            claim_eqv(r, *self),
    {
        ClaimState {
            lock_id: self.lock_id,
            lane: self.lane,
            v_claim_snapshot: self.v_claim_snapshot,
            opened_at: self.opened_at,
            agent_id: self.agent_id,
            commit_hash: self.commit_hash,
            commit_bond: self.commit_bond,
            committed_at: self.committed_at,
            revealed_payload: match &self.revealed_payload {
                None => None,
                Some(p) => Some(clone_bytes(p)),
            },
            revealed_salt: self.revealed_salt,
            certificates: clone_cert_vec(&self.certificates),
            revealed_at: self.revealed_at,
            challenger: self.challenger,
            challenge_bond: self.challenge_bond,
            challenge_evidence_hash: self.challenge_evidence_hash,
            challenged_at: self.challenged_at,
        }
    }
}

impl ClaimState {
    /// A fresh claim record with no commit, reveal or challenge yet.
    pub fn new(lock_id: TxId, lane: u8, v_claim_snapshot: u64, opened_at: Timestamp) -> (r: Self)
        ensures
            r.lock_id == lock_id,
            r.lane == lane,
            r.v_claim_snapshot == v_claim_snapshot,
            r.opened_at == opened_at,
            r.agent_id is None,
            r.commit_hash is None,
            r.commit_bond == 0,
            r.committed_at is None,
            r.revealed_payload is None,
            r.revealed_salt is None,
            r.certificates@ == Seq::<Certificate>::empty(),
            r.revealed_at is None,
            r.challenger is None,
            r.challenge_bond == 0,
            r.challenge_evidence_hash is None,
            r.challenged_at is None,
    {
        ClaimState {
            lock_id,
            lane,
            v_claim_snapshot,
            opened_at,
            agent_id: None,
            commit_hash: None,
            commit_bond: 0,
            committed_at: None,
            revealed_payload: None,
            revealed_salt: None,
            certificates: Vec::new(),
            revealed_at: None,
            challenger: None,
            challenge_bond: 0,
            challenge_evidence_hash: None,
            challenged_at: None,
        }
    }
}

// ── ProviderRecord ───────────────────────────────────────────────────────────

/// Status of a registered provider.
#[derive(Clone, Copy, PartialEq, Eq, Debug)]
pub enum ProviderStatus {
    Active,
    Revoked { revoked_at: Timestamp },
}

/// An on-chain provider capable of issuing certificates, keyed by the
/// provider's AccountId.
#[derive(Debug)]
pub struct ProviderRecord {
    /// AccountId of the provider (the primary key).
    pub provider_id: AccountId,
    /// Active signing keys (rotatable).
    pub public_keys: Vec<crate::types::DilithiumPublicKey>,
    /// Free-form class label, e.g. "court", "kyc", "oracle".
    pub provider_class: String,
    /// Jurisdiction codes where this provider is recognised.
    pub jurisdictions: Vec<String>,
    /// Current status.
    pub status: ProviderStatus,
    /// Bond posted at registration (returned on clean revocation).
    pub registration_bond: Balance,
    /// When the provider was registered.
    pub registered_at: Timestamp,
}

/// Structural equivalence of two provider records.
pub open spec fn provider_eqv(a: ProviderRecord, b: ProviderRecord) -> bool {
    &&& a.provider_id == b.provider_id
    &&& crate::account::pk_seq_eqv(a.public_keys@, b.public_keys@)
    &&& a.provider_class@ == b.provider_class@
    &&& str_seq_eqv(a.jurisdictions@, b.jurisdictions@)
    &&& a.status == b.status
    &&& a.registration_bond == b.registration_bond
    &&& a.registered_at == b.registered_at
}

impl Clone for ProviderRecord {
    fn clone(&self) -> (r: Self)
        ensures
            provider_eqv(r, *self),
    {
        ProviderRecord {
            provider_id: self.provider_id,
            public_keys: crate::account::clone_pk_vec(&self.public_keys),
            provider_class: self.provider_class.clone(),
            jurisdictions: crate::strutil::clone_string_vec(&self.jurisdictions),
            status: self.status,
            registration_bond: self.registration_bond,
            registered_at: self.registered_at,
        }
    }
}

// ── CertificateSchema ────────────────────────────────────────────────────────

/// Signature rules for a certificate schema.
#[derive(Clone, Copy, PartialEq, Eq, Debug)]
pub struct SignatureRules {
    /// Minimum number of distinct providers that must sign.
    pub min_providers: u32,
    /// Maximum age of any certificate (seconds).
    pub max_cert_age_secs: i64,
}

/// An on-chain schema describing what a certificate must contain and who may
/// issue it. Schema ids are allocated sequentially from a persistent counter.
#[derive(Debug)]
pub struct CertificateSchema {
    /// Sequential on-chain id.
    pub schema_id: SchemaId,
    /// Human-readable name.
    pub name: String,
    /// Schema version.
    pub version: u32,
    /// Hash of the canonical required-field specification.
    pub required_fields_hash: [u8; 32],
    /// (provider_class, min_count) pairs: which classes may issue, how many.
    pub provider_class_thresholds: Vec<(String, u32)>,
    /// Signature rules.
    pub signature_rules: SignatureRules,
    /// Whether new claims may reference this schema.
    pub active: bool,
    /// Who registered this schema.
    pub registered_by: AccountId,
    /// When it was registered.
    pub registered_at: Timestamp,
}

/// Element-wise equivalence of two class-threshold lists.
pub open spec fn thresholds_eqv(a: Seq<(String, u32)>, b: Seq<(String, u32)>) -> bool {
    &&& a.len() == b.len()
    &&& forall|i: int| 0 <= i < a.len() ==> a[i].0@ == b[i].0@ && a[i].1 == b[i].1
}

/// Structural equivalence of two certificate schemas.
pub open spec fn schema_eqv(a: CertificateSchema, b: CertificateSchema) -> bool {
    &&& a.schema_id == b.schema_id
    &&& a.name@ == b.name@
    &&& a.version == b.version
    &&& a.required_fields_hash == b.required_fields_hash
    &&& thresholds_eqv(a.provider_class_thresholds@, b.provider_class_thresholds@)
    &&& a.signature_rules == b.signature_rules
    &&& a.active == b.active
    &&& a.registered_by == b.registered_by
    &&& a.registered_at == b.registered_at
}

/// Copy a class-threshold list, preserving names and counts.
pub fn clone_thresholds(v: &Vec<(String, u32)>) -> (r: Vec<(String, u32)>)
    ensures
        thresholds_eqv(r@, v@),
{
    let mut out: Vec<(String, u32)> = Vec::new();
    let n: usize = v.len();
    let mut i: usize = 0;
    while i < n
        invariant
            n == v@.len(),
            i <= n,
            out@.len() == i,
            forall|j: int| 0 <= j < i ==> out@[j].0@ == v@[j].0@ && out@[j].1 == v@[j].1,
        decreases n - i,
    {
        let (s, c) = &v[i];
        out.push((s.clone(), *c));
        i += 1;
    }
    out
}

impl Clone for CertificateSchema {
    fn clone(&self) -> (r: Self)
        ensures
            schema_eqv(r, *self),
    {
        CertificateSchema {
            schema_id: self.schema_id,
            name: self.name.clone(),
            version: self.version,
            required_fields_hash: self.required_fields_hash,
            provider_class_thresholds: clone_thresholds(&self.provider_class_thresholds),
            signature_rules: self.signature_rules,
            active: self.active,
            registered_by: self.registered_by,
            registered_at: self.registered_at,
        }
    }
}

// ── LaneThresholds ───────────────────────────────────────────────────────────

/// Per-lane value thresholds, bonds and time windows.
#[derive(Clone, Copy, PartialEq, Eq, Debug)]
pub struct LaneThresholds {
    /// Below this fiat-cents value: Trivial lane.
    pub trivial_max_usd_cents: u64,
    /// Below this: Standard lane; at or above: Elevated.
    pub standard_max_usd_cents: u64,
    /// Minimum agent bond per lane (Chronos).
    pub trivial_bond_chronos: Balance,
    pub standard_bond_chronos: Balance,
    pub elevated_bond_chronos: Balance,
    /// Reveal window per lane (seconds from commit).
    pub trivial_reveal_window_secs: i64,
    pub standard_reveal_window_secs: i64,
    pub elevated_reveal_window_secs: i64,
    /// Challenge window per lane (seconds from reveal).
    pub trivial_challenge_window_secs: i64,
    pub standard_challenge_window_secs: i64,
    pub elevated_challenge_window_secs: i64,
}

impl LaneThresholds {
    /// Protocol defaults: lanes at $1,000 and $50,000; bonds of 10/100/500 KX;
    /// reveal windows of 7/14/30 days; challenge windows of 7/14/21 days.
    pub fn default_thresholds() -> (r: Self)
        ensures
            r.trivial_max_usd_cents == 100_000,
            r.standard_max_usd_cents == 5_000_000,
            r.trivial_bond_chronos == 10 * CHRONOS_PER_KX,
            r.standard_bond_chronos == 100 * CHRONOS_PER_KX,
            r.elevated_bond_chronos == 500 * CHRONOS_PER_KX,
            r.trivial_reveal_window_secs == 604_800,
            r.standard_reveal_window_secs == 1_209_600,
            r.elevated_reveal_window_secs == 2_592_000,
            r.trivial_challenge_window_secs == 604_800,
            r.standard_challenge_window_secs == 1_209_600,
            r.elevated_challenge_window_secs == 1_814_400,
    {
        LaneThresholds {
            trivial_max_usd_cents: 100_000,
            standard_max_usd_cents: 5_000_000,
            trivial_bond_chronos: 10_000_000,
            standard_bond_chronos: 100_000_000,
            elevated_bond_chronos: 500_000_000,
            trivial_reveal_window_secs: 604_800,
            standard_reveal_window_secs: 1_209_600,
            elevated_reveal_window_secs: 2_592_000,
            trivial_challenge_window_secs: 604_800,
            standard_challenge_window_secs: 1_209_600,
            elevated_challenge_window_secs: 1_814_400,
        }
    }

    /// The lane of a claim value: the first bucket whose upper threshold
    /// exceeds it.
    pub open spec fn spec_lane_for(&self, v_claim_usd_cents: u64) -> ClaimLane {
        if v_claim_usd_cents < self.trivial_max_usd_cents {
            ClaimLane::Trivial
        } else if v_claim_usd_cents < self.standard_max_usd_cents {
            ClaimLane::Standard
        } else {
            ClaimLane::Elevated
        }
    }

    pub fn lane_for(&self, v_claim_usd_cents: u64) -> (r: ClaimLane)
        ensures
            r == self.spec_lane_for(v_claim_usd_cents),
    {
        if v_claim_usd_cents < self.trivial_max_usd_cents {
            ClaimLane::Trivial
        } else if v_claim_usd_cents < self.standard_max_usd_cents {
            ClaimLane::Standard
        } else {
            ClaimLane::Elevated
        }
    }

    /// Minimum agent bond for a lane.
    pub open spec fn spec_min_bond(&self, lane: ClaimLane) -> Balance {
        match lane {
            ClaimLane::Trivial => self.trivial_bond_chronos,
            ClaimLane::Standard => self.standard_bond_chronos,
            ClaimLane::Elevated => self.elevated_bond_chronos,
        }
    }

    pub fn min_bond(&self, lane: ClaimLane) -> (r: Balance)
        ensures
            r == self.spec_min_bond(lane),
    {
        match lane {
            ClaimLane::Trivial => self.trivial_bond_chronos,
            ClaimLane::Standard => self.standard_bond_chronos,
            ClaimLane::Elevated => self.elevated_bond_chronos,
        }
    }

    /// Reveal window for a lane (seconds from commit).
    pub open spec fn spec_reveal_window(&self, lane: ClaimLane) -> i64 {
        match lane {
            ClaimLane::Trivial => self.trivial_reveal_window_secs,
            ClaimLane::Standard => self.standard_reveal_window_secs,
            ClaimLane::Elevated => self.elevated_reveal_window_secs,
        }
    }

    pub fn reveal_window(&self, lane: ClaimLane) -> (r: i64)
        ensures
            r == self.spec_reveal_window(lane),
    {
        match lane {
            ClaimLane::Trivial => self.trivial_reveal_window_secs,
            ClaimLane::Standard => self.standard_reveal_window_secs,
            ClaimLane::Elevated => self.elevated_reveal_window_secs,
        }
    }

    /// Challenge window for a lane (seconds from reveal).
    pub open spec fn spec_challenge_window(&self, lane: ClaimLane) -> i64 {
        match lane {
            ClaimLane::Trivial => self.trivial_challenge_window_secs,
            ClaimLane::Standard => self.standard_challenge_window_secs,
            ClaimLane::Elevated => self.elevated_challenge_window_secs,
        }
    }

    pub fn challenge_window(&self, lane: ClaimLane) -> (r: i64)
        ensures
            r == self.spec_challenge_window(lane),
    {
        match lane {
            ClaimLane::Trivial => self.trivial_challenge_window_secs,
            ClaimLane::Standard => self.standard_challenge_window_secs,
            ClaimLane::Elevated => self.elevated_challenge_window_secs,
        }
    }
}

// ── ClaimPolicy ──────────────────────────────────────────────────────────────

/// An on-chain policy governing how claims against a lock are resolved.
#[derive(Debug)]
pub struct ClaimPolicy {
    pub policy_id: PolicyId,
    pub name: String,
    pub version: u32,
    /// Certificate schema ids that claimants may submit.
    pub allowed_cert_schemas: Vec<SchemaId>,
    /// Per-lane configuration.
    pub thresholds: LaneThresholds,
    /// If true, a compliance certificate is mandatory.
    pub requires_compliance_cert: bool,
    /// Which schema id is the required compliance certificate.
    pub compliance_cert_schema_id: Option<SchemaId>,
    /// If true, locks without a unique identifier enter ambiguity mode.
    pub ambiguity_mode_enabled: bool,
    /// Schemas permitted in the Trivial lane.
    pub trivial_lane_allowed_schemas: Vec<SchemaId>,
    pub active: bool,
    pub registered_by: AccountId,
    pub registered_at: Timestamp,
}

// ── Oracle ───────────────────────────────────────────────────────────────────

/// A single price submission from an approved oracle provider.
#[derive(Debug)]
pub struct OracleSubmission {
    /// The submitting account (must be a registered oracle provider).
    pub submitter: AccountId,
    /// Trading pair, e.g. "KX/USD".
    pub pair: String,
    /// Price in fiat cents.
    pub price_cents: u64,
    /// When submitted.
    pub submitted_at: Timestamp,
}

/// Structural equivalence of two oracle submissions.
pub open spec fn submission_eqv(a: OracleSubmission, b: OracleSubmission) -> bool {
    &&& a.submitter == b.submitter
    &&& a.pair@ == b.pair@
    &&& a.price_cents == b.price_cents
    &&& a.submitted_at == b.submitted_at
}

impl Clone for OracleSubmission {
    fn clone(&self) -> (r: Self)
        ensures
            submission_eqv(r, *self),
    {
        OracleSubmission {
            submitter: self.submitter,
            pair: self.pair.clone(),
            price_cents: self.price_cents,
            submitted_at: self.submitted_at,
        }
    }
}

/// Aggregated oracle snapshot: the median of recent submissions for a pair.
#[derive(Debug)]
pub struct OracleSnapshot {
    pub pair: String,
    /// Median price in fiat cents.
    pub price_cents: u64,
    /// How many submissions contributed.
    pub num_submissions: u32,
    /// When the snapshot was computed.
    pub updated_at: Timestamp,
}

/// Structural equivalence of two oracle snapshots.
pub open spec fn snapshot_eqv(a: OracleSnapshot, b: OracleSnapshot) -> bool {
    &&& a.pair@ == b.pair@
    &&& a.price_cents == b.price_cents
    &&& a.num_submissions == b.num_submissions
    &&& a.updated_at == b.updated_at
}

impl Clone for OracleSnapshot {
    fn clone(&self) -> (r: Self)
        ensures
            snapshot_eqv(r, *self),
    {
        OracleSnapshot {
            pair: self.pair.clone(),
            price_cents: self.price_cents,
            num_submissions: self.num_submissions,
            updated_at: self.updated_at,
        }
    }
}

} // verus!
