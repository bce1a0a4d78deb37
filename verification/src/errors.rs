//! The error taxonomy. Callers match on the kind; structured detail rides
//! along where a caller needs it.

use vstd::prelude::*;

use crate::types::{AccountId, TxId};

verus! {

#[derive(Clone, Copy, PartialEq, Eq, Debug)]
pub enum ChronxError {
    // ── Transaction-shape ────────────────────────────────────────────────────
    InsufficientBalance { need: u128, have: u128 },
    InvalidNonce { expected: u64, got: u64 },
    InvalidSignature,
    InvalidPoW,
    UnknownAccount(AccountId),
    SelfTransfer,
    ZeroAmount,
    TransactionExpired,
    DuplicateVertex(TxId),
    AuthPolicyViolation,
    // ── DAG-shape ────────────────────────────────────────────────────────────
    UnknownParent(TxId),
    TooFewParents { min: usize, got: usize },
    TooManyParents { max: usize, got: usize },
    // ── Time-lock ────────────────────────────────────────────────────────────
    TimeLockNotMatured { unlock_time: i64 },
    TimeLockAlreadyClaimed,
    TimeLockNotFound(TxId),
    TimeLockIrrevocable,
    UnlockTimestampInPast,
    LockAmountTooSmall { min: u128 },
    LockDurationTooShort { min_secs: i64 },
    LockDurationTooLong { max_years: u32 },
    MemoTooLong { max: usize },
    TooManyTags { max: usize },
    TagTooLong { max: usize },
    ExtensionDataTooLarge { max: usize },
    CancellationWindowTooLong { max: u32 },
    SplitPolicyBasisPointsMismatch { got: u32 },
    RecurringCountTooLarge { max: u32 },
    CancellationWindowExpired,
    CancelNotBySender,
    // ── Recovery ─────────────────────────────────────────────────────────────
    RecoveryAlreadyActive(AccountId),
    NoActiveRecovery(AccountId),
    RecoveryBondTooLow { min: u128 },
    ChallengeBondTooLow { min: u128 },
    RecoveryDelayNotElapsed,
    ChallengeWindowClosed,
    VerifierNotRegistered(AccountId),
    VerifierAlreadyVoted,
    VerifierStakeTooLow { min: u128 },
    RecoveryNotApproved,
    // ── Auth ─────────────────────────────────────────────────────────────────
    MultisigThresholdNotMet { need: u32, got: u32 },
    KeyNotInMultisigSet,
    DuplicateMultisigSignature,
    // ── Serialization / storage ──────────────────────────────────────────────
    Serialization,
    Storage,
    // ── Genesis ──────────────────────────────────────────────────────────────
    GenesisSupplyMismatch { expected: u128, got: u128 },
    FeatureNotActive,
    // ── Claims ───────────────────────────────────────────────────────────────
    LockRequiresClaimsFramework,
    ClaimNotFound(TxId),
    InvalidClaimStateTransition,
    ClaimRevealHashMismatch,
    ClaimRevealWindowExpired,
    ClaimChallengeWindowExpired,
    ClaimChallengeWindowOpen,
    ClaimBondTooLow { min: u128 },
    ProviderNotFound(AccountId),
    ProviderAlreadyRegistered,
    ProviderRevoked,
    SchemaNotFound(u64),
    SchemaNotActive,
    OracleSnapshotUnavailable,
    CertificateSchemaNotAllowed(u64),
    ComplianceCertRequired,
    NoPolicyOnLock,
    LockAmbiguous,
    ProviderBondTooLow { min: u128 },
    SchemaBondTooLow { min: u128 },
}

} // verus!
