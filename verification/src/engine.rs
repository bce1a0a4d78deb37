//! The state engine: the per-action dispatcher and the atomic `apply`.
//!
//! Every action is validated in full before the first mutation, so a failed
//! action leaves the store untouched; `apply` restores a snapshot if a later
//! action of the same transaction fails, which keeps the whole transaction
//! atomic. Every action preserves the total supply held (`circulating`).

use vstd::pervasive::VecAdditionalExecFns;
use vstd::prelude::*;

use crate::account::{
    Account, AuthPolicy, RecoveryState, account_eqv, policy_eqv, recovery_default_spec,
};
use crate::constants::{
    CANCELLATION_WINDOW_MAX_SECS, MAX_EXTENSION_DATA_BYTES, MAX_LOCK_DURATION_YEARS,
    MAX_MEMO_BYTES, MAX_RECURRING_COUNT, MAX_TAGS_PER_LOCK, MAX_TAG_LENGTH,
    MIN_LOCK_AMOUNT_CHRONOS, MIN_LOCK_DURATION_SECS, TOTAL_SUPPLY_CHRONOS,
};
use crate::crypto::{account_id_from_pubkey, blake3_of};
use crate::errors::ChronxError;
use crate::store::{StateDb, account_funds, claim_funds, lock_funds, provider_funds};
use crate::strutil::{opt_bytes_eqv, opt_str_eqv, opt_str_vec_eqv};
use crate::sums::{
    lemma_sum_by_nonneg, lemma_sum_by_push, lemma_sum_by_two, lemma_sum_by_update, sum_by,
};
use crate::timelock::{
    ExpiryPolicy, RecurringPolicy, SplitPolicy, TimeLockContract, TimeLockStatus, opt_split_eqv,
};
use crate::transaction::{Action, Transaction};
use crate::types::{AccountId, Balance, DilithiumPublicKey, Timestamp, TxId};

verus! {

/// The state transition engine: validates and applies transactions against
/// the store. Each `apply` call is atomic.
pub struct StateEngine {
    pub db: StateDb,
    pub pow_difficulty: u8,
}

/// A receive-only account materialized by a Transfer: empty public key, zero
/// nonce, nothing staked, no recovery in flight.
pub open spec fn is_stub_account(a: Account, id: AccountId, bal: Balance) -> bool {
    &&& a.account_id == id
    &&& a.balance == bal
    &&& (a.auth_policy matches AuthPolicy::SingleSig { public_key } && public_key@.len() == 0)
    &&& a.nonce == 0
    &&& recovery_default_spec(a.recovery_state)
    &&& a.post_recovery_restriction is None
    &&& a.verifier_stake == 0
    &&& a.is_verifier == false
}

/// Non-negativity of every fund measure, and the element-wise bound by the
/// whole circulating supply.
pub proof fn lemma_funds_bounds(db: StateDb)
    ensures
        sum_by(db.accounts@, |a: Account| account_funds(a)) >= 0,
        sum_by(db.timelocks@, |l: TimeLockContract| lock_funds(l)) >= 0,
        sum_by(db.claims@, |c: crate::claims::ClaimState| claim_funds(c)) >= 0,
        sum_by(db.providers@, |p: crate::claims::ProviderRecord| provider_funds(p)) >= 0,
        forall|i: int|
            0 <= i < db.accounts@.len() ==> account_funds(#[trigger] db.accounts@[i])
                <= db.circulating(),
        forall|i: int|
            0 <= i < db.timelocks@.len() ==> lock_funds(#[trigger] db.timelocks@[i])
                <= db.circulating(),
        forall|i: int|
            0 <= i < db.claims@.len() ==> claim_funds(#[trigger] db.claims@[i])
                <= db.circulating(),
        forall|i: int|
            0 <= i < db.providers@.len() ==> provider_funds(#[trigger] db.providers@[i])
                <= db.circulating(),
{
    lemma_sum_by_nonneg(db.accounts@, |a: Account| account_funds(a));
    lemma_sum_by_nonneg(db.timelocks@, |l: TimeLockContract| lock_funds(l));
    lemma_sum_by_nonneg(db.claims@, |c: crate::claims::ClaimState| claim_funds(c));
    lemma_sum_by_nonneg(db.providers@, |p: crate::claims::ProviderRecord| provider_funds(p));
    assert forall|i: int|
        0 <= i < db.accounts@.len() implies account_funds(#[trigger] db.accounts@[i])
        <= db.circulating() by {
        let f = |a: Account| account_funds(a);
        assert(f(db.accounts@[i]) <= sum_by(db.accounts@, f));
    }
    assert forall|i: int|
        0 <= i < db.timelocks@.len() implies lock_funds(#[trigger] db.timelocks@[i])
        <= db.circulating() by {
        let f = |l: TimeLockContract| lock_funds(l);
        assert(f(db.timelocks@[i]) <= sum_by(db.timelocks@, f));
    }
    assert forall|i: int|
        0 <= i < db.claims@.len() implies claim_funds(#[trigger] db.claims@[i])
        <= db.circulating() by {
        let f = |c: crate::claims::ClaimState| claim_funds(c);
        assert(f(db.claims@[i]) <= sum_by(db.claims@, f));
    }
    assert forall|i: int|
        0 <= i < db.providers@.len() implies provider_funds(#[trigger] db.providers@[i])
        <= db.circulating() by {
        let f = |p: crate::claims::ProviderRecord| provider_funds(p);
        assert(f(db.providers@[i]) <= sum_by(db.providers@, f));
    }
}

/// Two distinct accounts' funds together never exceed the circulating supply.
pub proof fn lemma_two_accounts_bound(db: StateDb, i: int, j: int)
    requires
        0 <= i < db.accounts@.len(),
        0 <= j < db.accounts@.len(),
        i != j,
    ensures
        account_funds(db.accounts@[i]) + account_funds(db.accounts@[j]) <= db.circulating(),
{
    lemma_funds_bounds(db);
    lemma_sum_by_two(db.accounts@, |a: Account| account_funds(a), i, j);
}

/// A placeholder account used to momentarily swap a record out of the store
/// while it is being updated.
fn placeholder_account() -> (r: Account) {
    Account::new(
        AccountId::from_bytes([0u8; 32]),
        AuthPolicy::SingleSig { public_key: DilithiumPublicKey(Vec::new()) },
    )
}

/// Per-account sanity the engine maintains: the verifier stake stays within
/// the balance; an inactive recovery holds no bonds; an active recovery has
/// its companion fields populated.
pub open spec fn account_wf(a: Account) -> bool {
    &&& a.verifier_stake <= a.balance
    &&& !a.recovery_state.active ==> a.recovery_state.recovery_bond == 0
        && a.recovery_state.challenge_bond == 0
    &&& a.recovery_state.active ==> a.recovery_state.recovery_start_time is Some
        && a.recovery_state.recovery_execute_after is Some
        && a.recovery_state.proposed_owner_key is Some
    &&& votes_distinct(a.recovery_state)
}

/// No verifier vote TxId appears twice across a recovery's two vote lists.
pub open spec fn votes_distinct(rs: RecoveryState) -> bool {
    &&& forall|i: int, j: int|
        0 <= i < j < rs.votes_approve@.len() ==> rs.votes_approve@[i]@ != rs.votes_approve@[j]@
    &&& forall|i: int, j: int|
        0 <= i < j < rs.votes_reject@.len() ==> rs.votes_reject@[i]@ != rs.votes_reject@[j]@
    &&& forall|i: int, j: int|
        0 <= i < rs.votes_approve@.len() && 0 <= j < rs.votes_reject@.len()
            ==> rs.votes_approve@[i]@ != rs.votes_reject@[j]@
}

// ── The spec-level transition relation ──────────────────────────────────────
//
// `action_ok` says when one action succeeds against a state; `action_rel`
// says exactly what it does. The executable per-action methods carry the
// same statements against their own pre/post states; `apply` folds these
// over the declared action order.

/// When an action is accepted against `db`, sent by `sender` inside the
/// transaction `tx_id`, at time `now`.
pub open spec fn action_ok(
    db: StateDb,
    sender: AccountId,
    tx_id: TxId,
    a: Action,
    now: Timestamp,
) -> bool {
    match a {
        Action::Transfer { to, amount } => amount > 0 && sender@ != to@ && db.has_account(sender@)
            && db.account_of(sender@).spec_spendable() >= amount,
        Action::TimeLockCreate {
            recipient,
            amount,
            unlock_at,
            memo,
            cancellation_window_secs,
            notify_recipient,
            tags,
            private,
            expiry_policy,
            split_policy,
            claim_attempts_max,
            recurring,
            extension_data,
        } => !db.has_timelock(tx_id@) && spec_create_err(
            db,
            sender,
            amount,
            unlock_at,
            now,
            memo,
            tags,
            extension_data,
            cancellation_window_secs,
            split_policy,
            recurring,
        ) is None,
        Action::TimeLockClaim { lock_id } => db.has_account(sender@) && db.has_timelock(
            lock_id.0@,
        ) && !(db.timelock_of(lock_id.0@).lock_version >= 1 && db.timelock_of(lock_id.0@)
            .claim_policy is Some) && db.timelock_of(lock_id.0@).status is Pending && now
            >= db.timelock_of(lock_id.0@).unlock_at && sender@ == blake3_of(
            db.timelock_of(lock_id.0@).recipient_key@,
        ),
        Action::TimeLockSell { lock_id, ask_price } => false,
        Action::CancelTimeLock { lock_id } => db.has_account(sender@) && db.has_timelock(
            lock_id.0@,
        ) && db.timelock_of(lock_id.0@).sender@ == sender@ && db.timelock_of(lock_id.0@)
            .status is Pending && db.timelock_of(lock_id.0@).cancellation_window_secs is Some
            && now <= db.timelock_of(lock_id.0@).created_at + db.timelock_of(lock_id.0@)
            .cancellation_window_secs.unwrap(),
        Action::StartRecovery {
            target_account,
            proposed_owner_key,
            evidence_hash,
            bond_amount,
        } => bond_amount >= crate::constants::MIN_RECOVERY_BOND_CHRONOS && db.has_account(sender@)
            && db.account_of(sender@).spec_spendable() >= bond_amount && db.has_account(
            target_account@,
        ) && !db.account_of(target_account@).recovery_state.active,
        Action::ChallengeRecovery { target_account, counter_evidence_hash, bond_amount } => 
            bond_amount >= crate::constants::MIN_CHALLENGE_BOND_CHRONOS && db.has_account(sender@)
            && db.account_of(sender@).spec_spendable() >= bond_amount && db.has_account(
            target_account@,
        ) && db.account_of(target_account@).recovery_state.active && now <= db.account_of(
            target_account@,
        ).recovery_state.recovery_start_time.unwrap()
            + crate::constants::RECOVERY_CHALLENGE_WINDOW_SECS,
        Action::FinalizeRecovery { target_account } => db.has_account(target_account@)
            && db.account_of(target_account@).recovery_state.active && now >= db.account_of(
            target_account@,
        ).recovery_state.recovery_execute_after.unwrap() && db.account_of(
            target_account@,
        ).recovery_state.votes_approve@.len() >= crate::constants::RECOVERY_VERIFIER_THRESHOLD,
        Action::RegisterVerifier { stake_amount } => stake_amount
            >= crate::constants::MIN_VERIFIER_STAKE_CHRONOS && db.has_account(sender@)
            && db.account_of(sender@).spec_spendable() >= stake_amount,
        Action::VoteRecovery { target_account, approve, fee_bid } => db.has_account(sender@)
            && db.account_of(sender@).is_verifier && db.has_account(target_account@)
            && db.account_of(target_account@).recovery_state.active && !vote_recorded(
            db.account_of(target_account@).recovery_state,
            tx_id@,
        ),
        Action::OpenClaim { lock_id } => db.has_timelock(lock_id.0@) && db.timelock_of(lock_id.0@)
            .claim_policy is Some && db.timelock_of(lock_id.0@).status is Pending && now
            >= db.timelock_of(lock_id.0@).unlock_at,
        Action::SubmitClaimCommit { lock_id, commit_hash, bond_amount } => db.has_timelock(
            lock_id.0@,
        ) && db.timelock_of(lock_id.0@).status is ClaimOpen && db.has_claim(lock_id.0@)
            && bond_amount >= spec_default_min_bond(db.claim_of(lock_id.0@).lane)
            && db.has_account(sender@) && db.account_of(sender@).spec_spendable() >= bond_amount,
        Action::RevealClaim { lock_id, payload, salt, certificates } => db.has_timelock(
            lock_id.0@,
        ) && (db.timelock_of(lock_id.0@).status is ClaimCommitted) && db.has_claim(lock_id.0@)
            && db.claim_of(lock_id.0@).agent_id == Some(sender) && (spec_in_reveal_window(
            db,
            lock_id.0@,
            now,
        ) ==> db.claim_of(lock_id.0@).commit_hash is Some),
        Action::ChallengeClaimReveal { lock_id, evidence_hash, bond_amount } => db.has_timelock(
            lock_id.0@,
        ) && (db.timelock_of(lock_id.0@).status is ClaimRevealed) && db.has_claim(lock_id.0@)
            && spec_in_challenge_window(db, lock_id.0@, now) && bond_amount >= db.claim_of(
            lock_id.0@,
        ).commit_bond && db.has_account(sender@) && db.account_of(sender@).spec_spendable()
            >= bond_amount,
        Action::FinalizeClaim { lock_id } => db.has_timelock(lock_id.0@) && db.has_claim(
            lock_id.0@,
        ) && ((db.timelock_of(lock_id.0@).status is ClaimRevealed && !spec_in_challenge_window(
            db,
            lock_id.0@,
            now,
        ) && db.claim_of(lock_id.0@).agent_id is Some && db.has_account(
            db.claim_of(lock_id.0@).agent_id.unwrap()@,
        )) || ((db.timelock_of(lock_id.0@).status is ClaimChallenged) && db.claim_of(lock_id.0@)
            .challenger is Some && db.has_account(db.claim_of(lock_id.0@).challenger.unwrap()@)
            && db.has_account(db.timelock_of(lock_id.0@).sender@))),
        Action::RegisterProvider { provider_class, jurisdictions, bond_amount } => bond_amount
            >= crate::constants::PROVIDER_BOND_CHRONOS && db.has_account(sender@)
            && db.account_of(sender@).spec_spendable() >= bond_amount && !db.has_provider(
            sender@,
        ),
        Action::RevokeProvider { provider_id } => db.has_provider(provider_id@) && sender@
            == provider_id@ && db.has_account(sender@),
        Action::RotateProviderKey { new_public_key } => db.has_provider(sender@)
            && !(db.provider_of(sender@).status is Revoked),
        Action::RegisterSchema {
            name,
            version,
            required_fields_hash,
            provider_class_thresholds,
            min_providers,
            max_cert_age_secs,
            bond_amount,
        } => bond_amount >= crate::constants::SCHEMA_BOND_CHRONOS && db.has_account(sender@)
            && db.account_of(sender@).spec_spendable() >= bond_amount
            && db.next_schema_id_counter < u64::MAX,
        Action::DeactivateSchema { schema_id } => db.has_schema(schema_id) && db.schema_of(
            schema_id,
        ).registered_by@ == sender@,
        Action::SubmitOraclePrice { pair, price_cents } => db.has_provider(sender@)
            && !(db.provider_of(sender@).status is Revoked) && db.provider_of(sender@)
            .provider_class@ == "oracle"@,
    }
}

/// What an accepted action does: the exact state change from `pre` to
/// `post`, written over the same spec functions the per-action contracts
/// use.
pub open spec fn action_rel(
    pre: StateDb,
    post: StateDb,
    sender: AccountId,
    tx_id: TxId,
    a: Action,
    now: Timestamp,
) -> bool {
    post.wf() && post.circulating() == pre.circulating() && ids_nonces_preserved(
        pre.accounts@,
        post.accounts@,
    ) && locks_frozen(pre.timelocks@, post.timelocks@) && match a {
        Action::Transfer { to, amount } => {
            let si = pre.account_index(sender@);
            let debited = Account {
                balance: (pre.account_of(sender@).balance - amount) as u128,
                ..pre.account_of(sender@)
            };
            &&& if pre.has_account(to@) {
                let ri = pre.account_index(to@);
                post.accounts@ == pre.accounts@.update(si, debited).update(
                    ri,
                    Account {
                        balance: (pre.account_of(to@).balance + amount) as u128,
                        ..pre.account_of(to@)
                    },
                )
            } else {
                post.accounts@.len() == pre.accounts@.len() + 1 && post.accounts@.drop_last()
                    == pre.accounts@.update(si, debited) && is_stub_account(
                    post.accounts@.last(),
                    to,
                    amount,
                )
            }
            &&& post.timelocks == pre.timelocks
            &&& unchanged_but_accounts(post, pre)
        },
        Action::TimeLockCreate {
            recipient,
            amount,
            unlock_at,
            memo,
            cancellation_window_secs,
            notify_recipient,
            tags,
            private,
            expiry_policy,
            split_policy,
            claim_attempts_max,
            recurring,
            extension_data,
        } => {
            let si = pre.account_index(sender@);
            let debited = Account {
                balance: (pre.account_of(sender@).balance - amount) as u128,
                ..pre.account_of(sender@)
            };
            &&& post.accounts@ == pre.accounts@.update(si, debited)
            &&& post.timelocks@.len() == pre.timelocks@.len() + 1
            &&& post.timelocks@.drop_last() == pre.timelocks@
            &&& is_created_lock(
                post.timelocks@.last(),
                tx_id,
                sender,
                recipient,
                amount,
                unlock_at,
                memo,
                cancellation_window_secs,
                notify_recipient,
                tags,
                private,
                expiry_policy,
                split_policy,
                claim_attempts_max,
                recurring,
                extension_data,
                now,
            )
            &&& unchanged_but_accounts_locks(post, pre)
        },
        Action::TimeLockClaim { lock_id } => {
            let si = pre.account_index(sender@);
            let li = pre.timelock_index(lock_id.0@);
            let lock = pre.timelock_of(lock_id.0@);
            &&& post.accounts@ == pre.accounts@.update(
                si,
                Account {
                    balance: (pre.account_of(sender@).balance + lock.amount) as u128,
                    ..pre.account_of(sender@)
                },
            )
            &&& post.timelocks@ == pre.timelocks@.update(
                li,
                TimeLockContract { status: TimeLockStatus::Claimed { claimed_at: now }, ..lock },
            )
            &&& unchanged_but_accounts_locks(post, pre)
        },
        Action::TimeLockSell { lock_id, ask_price } => false,
        Action::CancelTimeLock { lock_id } => {
            let si = pre.account_index(sender@);
            let li = pre.timelock_index(lock_id.0@);
            let lock = pre.timelock_of(lock_id.0@);
            &&& post.accounts@ == pre.accounts@.update(
                si,
                Account {
                    balance: (pre.account_of(sender@).balance + lock.amount) as u128,
                    ..pre.account_of(sender@)
                },
            )
            &&& post.timelocks@ == pre.timelocks@.update(
                li,
                TimeLockContract {
                    status: TimeLockStatus::Cancelled { cancelled_at: now },
                    ..lock
                },
            )
            &&& unchanged_but_accounts_locks(post, pre)
        },
        Action::StartRecovery {
            target_account,
            proposed_owner_key,
            evidence_hash,
            bond_amount,
        } => {
            let si = pre.account_index(sender@);
            let ti = pre.account_index(target_account@);
            let debited = Account {
                balance: (pre.account_of(sender@).balance - bond_amount) as u128,
                ..pre.account_of(sender@)
            };
            let base = if ti == si {
                debited
            } else {
                pre.account_of(target_account@)
            };
            let tfin = post.accounts@[ti];
            &&& post.accounts@.len() == pre.accounts@.len()
            &&& forall|j: int|
                0 <= j < pre.accounts@.len() && j != ti && j != si ==> post.accounts@[j]
                    == pre.accounts@[j]
            &&& (si != ti ==> post.accounts@[si] == debited)
            &&& tfin.account_id == base.account_id
            &&& tfin.balance == base.balance
            &&& tfin.auth_policy == base.auth_policy
            &&& tfin.nonce == base.nonce
            &&& tfin.verifier_stake == base.verifier_stake
            &&& tfin.is_verifier == base.is_verifier
            &&& tfin.post_recovery_restriction == base.post_recovery_restriction
            &&& tfin.recovery_state.active == true
            &&& opt_pk_view_eqv(tfin.recovery_state.proposed_owner_key, proposed_owner_key@)
            &&& tfin.recovery_state.recovery_start_time == Some(now)
            &&& tfin.recovery_state.recovery_execute_after == Some(
                (now + crate::constants::RECOVERY_EXECUTION_DELAY_SECS) as i64,
            )
            &&& tfin.recovery_state.recovery_bond == bond_amount
            &&& tfin.recovery_state.challenge_bond == base.recovery_state.challenge_bond
            &&& tfin.recovery_state.decision_status == base.recovery_state.decision_status
            &&& tfin.recovery_state.evidence_hash == Some(evidence_hash)
            &&& tfin.recovery_state.counter_evidence_hash
                == base.recovery_state.counter_evidence_hash
            &&& tfin.recovery_state.votes_approve@.len() == 0
            &&& tfin.recovery_state.votes_reject@.len() == 0
            &&& tfin.recovery_state.challenge_active == false
            &&& unchanged_but_accounts(post, pre)
        },
        Action::ChallengeRecovery { target_account, counter_evidence_hash, bond_amount } => {
            let si = pre.account_index(sender@);
            let ti = pre.account_index(target_account@);
            let debited = Account {
                balance: (pre.account_of(sender@).balance - bond_amount) as u128,
                ..pre.account_of(sender@)
            };
            let base = if ti == si {
                debited
            } else {
                pre.account_of(target_account@)
            };
            let targeted = Account {
                recovery_state: RecoveryState {
                    challenge_active: true,
                    challenge_bond: bond_amount,
                    counter_evidence_hash: Some(counter_evidence_hash),
                    ..base.recovery_state
                },
                ..base
            };
            &&& post.accounts@ == pre.accounts@.update(si, debited).update(ti, targeted)
            &&& post.forfeited == pre.forfeited + pre.account_of(
                target_account@,
            ).recovery_state.challenge_bond
            &&& unchanged_but_accounts_forfeited(post, pre)
        },
        Action::FinalizeRecovery { target_account } => {
            let ti = pre.account_index(target_account@);
            let t0 = pre.account_of(target_account@);
            &&& post.accounts@.len() == pre.accounts@.len()
            &&& forall|j: int|
                0 <= j < pre.accounts@.len() && j != ti ==> post.accounts@[j] == pre.accounts@[j]
            &&& post.accounts@[ti].balance == t0.balance
            &&& post.accounts@[ti].nonce == t0.nonce
            &&& post.accounts@[ti].account_id == t0.account_id
            &&& (post.accounts@[ti].auth_policy matches AuthPolicy::RecoveryEnabled {
                owner_key,
                recovery_config,
            } && opt_pk_view_eqv(t0.recovery_state.proposed_owner_key, owner_key@)
                && recovery_config.execution_delay_override is None
                && recovery_config.post_recovery_restrictions == true)
            &&& recovery_default_spec(post.accounts@[ti].recovery_state)
            &&& post.forfeited == pre.forfeited + t0.recovery_state.recovery_bond
                + t0.recovery_state.challenge_bond
            &&& unchanged_but_accounts_forfeited(post, pre)
        },
        Action::RegisterVerifier { stake_amount } => {
            let si = pre.account_index(sender@);
            let s0 = pre.account_of(sender@);
            &&& post.accounts@ == pre.accounts@.update(
                si,
                Account {
                    verifier_stake: (s0.verifier_stake + stake_amount) as u128,
                    is_verifier: true,
                    ..s0
                },
            )
            &&& unchanged_but_accounts(post, pre)
        },
        Action::VoteRecovery { target_account, approve, fee_bid } => {
            let ti = pre.account_index(target_account@);
            let t0 = pre.account_of(target_account@);
            &&& post.accounts@.len() == pre.accounts@.len()
            &&& forall|j: int|
                0 <= j < pre.accounts@.len() && j != ti ==> post.accounts@[j] == pre.accounts@[j]
            &&& (approve ==> post.accounts@[ti].recovery_state.votes_approve@
                == t0.recovery_state.votes_approve@.push(tx_id)
                && post.accounts@[ti].recovery_state.votes_reject@
                == t0.recovery_state.votes_reject@)
            &&& (!approve ==> post.accounts@[ti].recovery_state.votes_reject@
                == t0.recovery_state.votes_reject@.push(tx_id)
                && post.accounts@[ti].recovery_state.votes_approve@
                == t0.recovery_state.votes_approve@)
            &&& post.accounts@[ti].recovery_state.active == t0.recovery_state.active
            &&& post.accounts@[ti].recovery_state.recovery_bond
                == t0.recovery_state.recovery_bond
            &&& post.accounts@[ti].recovery_state.challenge_bond
                == t0.recovery_state.challenge_bond
            &&& post.accounts@[ti].balance == t0.balance
            &&& post.accounts@[ti].nonce == t0.nonce
            &&& post.accounts@[ti].account_id == t0.account_id
            &&& post.accounts@[ti].auth_policy == t0.auth_policy
            &&& post.accounts@[ti].verifier_stake == t0.verifier_stake
            &&& post.accounts@[ti].is_verifier == t0.is_verifier
            &&& unchanged_but_accounts(post, pre)
        },
        Action::OpenClaim { lock_id } => {
            let li = pre.timelock_index(lock_id.0@);
            let lock = pre.timelock_of(lock_id.0@);
            let ambiguous = lock.lock_version >= 1 && lock.org_identifier is None
                && lock.beneficiary_anchor_commitment is None;
            let v = spec_v_claim(pre, lock.amount);
            &&& (ambiguous ==> post.timelocks@ == pre.timelocks@.update(
                li,
                TimeLockContract {
                    status: TimeLockStatus::Ambiguous { flagged_at: now },
                    ..lock
                },
            ) && post.claims == pre.claims && post.forfeited == pre.forfeited)
            &&& (!ambiguous ==> post.timelocks@ == pre.timelocks@.update(
                li,
                TimeLockContract {
                    status: TimeLockStatus::ClaimOpen { opened_at: now },
                    ..lock
                },
            ) && post.has_claim(lock_id.0@) && {
                let c = post.claim_of(lock_id.0@);
                &&& c.lock_id == lock_id.0
                &&& c.lane == spec_lane_u8(v)
                &&& c.v_claim_snapshot == v
                &&& c.opened_at == now
                &&& c.agent_id is None
                &&& c.commit_bond == 0
                &&& c.challenge_bond == 0
                &&& c.commit_hash is None
                &&& c.committed_at is None
                &&& c.revealed_at is None
                &&& c.challenger is None
            })
            &&& post.accounts == pre.accounts
            &&& post.vertices == pre.vertices
            &&& post.dag_tips == pre.dag_tips
            &&& post.providers == pre.providers
            &&& post.schemas == pre.schemas
            &&& post.oracle_snapshots == pre.oracle_snapshots
            &&& post.oracle_submissions == pre.oracle_submissions
            &&& post.next_schema_id_counter == pre.next_schema_id_counter
        },
        Action::SubmitClaimCommit { lock_id, commit_hash, bond_amount } => {
            let si = pre.account_index(sender@);
            let li = pre.timelock_index(lock_id.0@);
            let lock = pre.timelock_of(lock_id.0@);
            let c0 = pre.claim_of(lock_id.0@);
            let cfin = post.claim_of(lock_id.0@);
            &&& post.accounts@ == pre.accounts@.update(
                si,
                Account {
                    balance: (pre.account_of(sender@).balance - bond_amount) as u128,
                    ..pre.account_of(sender@)
                },
            )
            &&& post.timelocks@ == pre.timelocks@.update(
                li,
                TimeLockContract {
                    status: TimeLockStatus::ClaimCommitted { committed_at: now },
                    ..lock
                },
            )
            &&& post.has_claim(lock_id.0@)
            &&& cfin.agent_id == Some(sender)
            &&& cfin.commit_hash == Some(commit_hash)
            &&& cfin.commit_bond == bond_amount
            &&& cfin.committed_at == Some(now)
            &&& cfin.lane == c0.lane
            &&& cfin.v_claim_snapshot == c0.v_claim_snapshot
            &&& cfin.opened_at == c0.opened_at
            &&& cfin.challenge_bond == c0.challenge_bond
            &&& cfin.lock_id == c0.lock_id
            &&& post.claims@.len() == pre.claims@.len()
            &&& post.forfeited == pre.forfeited + c0.commit_bond
            &&& post.vertices == pre.vertices
            &&& post.dag_tips == pre.dag_tips
            &&& post.providers == pre.providers
            &&& post.schemas == pre.schemas
            &&& post.oracle_snapshots == pre.oracle_snapshots
            &&& post.oracle_submissions == pre.oracle_submissions
            &&& post.next_schema_id_counter == pre.next_schema_id_counter
        },
        Action::RevealClaim { lock_id, payload, salt, certificates } => {
            let li = pre.timelock_index(lock_id.0@);
            let lock = pre.timelock_of(lock_id.0@);
            let c0 = pre.claim_of(lock_id.0@);
            let cfin = post.claim_of(lock_id.0@);
            let in_window = spec_in_reveal_window(pre, lock_id.0@, now);
            let hash_ok = c0.commit_hash matches Some(h) && h@ == crate::crypto::blake3_of(
                payload@ + salt@,
            );
            &&& (!in_window ==> post.timelocks@ == pre.timelocks@.update(
                li,
                TimeLockContract {
                    status: TimeLockStatus::ClaimSlashed {
                        reason: crate::timelock::SlashReason::RevealTimeout,
                        slashed_at: now,
                    },
                    ..lock
                },
            ) && cfin.commit_bond == 0 && post.forfeited == pre.forfeited + c0.commit_bond
                + lock.amount)
            &&& (in_window && !hash_ok ==> post.timelocks@ == pre.timelocks@.update(
                li,
                TimeLockContract {
                    status: TimeLockStatus::ClaimSlashed {
                        reason: crate::timelock::SlashReason::RevealHashMismatch,
                        slashed_at: now,
                    },
                    ..lock
                },
            ) && cfin.commit_bond == 0 && post.forfeited == pre.forfeited + c0.commit_bond
                + lock.amount)
            &&& (in_window && hash_ok ==> post.timelocks@ == pre.timelocks@.update(
                li,
                TimeLockContract {
                    status: TimeLockStatus::ClaimRevealed { revealed_at: now },
                    ..lock
                },
            ) && (cfin.revealed_payload matches Some(pl) && pl@ == payload@)
                && cfin.revealed_salt == Some(salt) && cfin.revealed_at == Some(now)
                && crate::claims::cert_seq_eqv(cfin.certificates@, certificates@)
                && cfin.commit_bond == c0.commit_bond && post.forfeited == pre.forfeited)
            &&& cfin.agent_id == c0.agent_id
            &&& cfin.lane == c0.lane
            &&& cfin.challenge_bond == c0.challenge_bond
            &&& post.claims@.len() == pre.claims@.len()
            &&& post.accounts == pre.accounts
            &&& post.vertices == pre.vertices
            &&& post.dag_tips == pre.dag_tips
            &&& post.providers == pre.providers
            &&& post.schemas == pre.schemas
            &&& post.oracle_snapshots == pre.oracle_snapshots
            &&& post.oracle_submissions == pre.oracle_submissions
            &&& post.next_schema_id_counter == pre.next_schema_id_counter
        },
        Action::ChallengeClaimReveal { lock_id, evidence_hash, bond_amount } => {
            let si = pre.account_index(sender@);
            let li = pre.timelock_index(lock_id.0@);
            let lock = pre.timelock_of(lock_id.0@);
            let c0 = pre.claim_of(lock_id.0@);
            let cfin = post.claim_of(lock_id.0@);
            &&& post.accounts@ == pre.accounts@.update(
                si,
                Account {
                    balance: (pre.account_of(sender@).balance - bond_amount) as u128,
                    ..pre.account_of(sender@)
                },
            )
            &&& post.timelocks@ == pre.timelocks@.update(
                li,
                TimeLockContract {
                    status: TimeLockStatus::ClaimChallenged { challenged_at: now },
                    ..lock
                },
            )
            &&& post.has_claim(lock_id.0@)
            &&& cfin.challenger == Some(sender)
            &&& cfin.challenge_bond == bond_amount
            &&& cfin.challenge_evidence_hash == Some(evidence_hash)
            &&& cfin.challenged_at == Some(now)
            &&& cfin.agent_id == c0.agent_id
            &&& cfin.commit_bond == c0.commit_bond
            &&& cfin.lane == c0.lane
            &&& post.claims@.len() == pre.claims@.len()
            &&& post.forfeited == pre.forfeited + c0.challenge_bond
            &&& post.vertices == pre.vertices
            &&& post.dag_tips == pre.dag_tips
            &&& post.providers == pre.providers
            &&& post.schemas == pre.schemas
            &&& post.oracle_snapshots == pre.oracle_snapshots
            &&& post.oracle_submissions == pre.oracle_submissions
            &&& post.next_schema_id_counter == pre.next_schema_id_counter
        },
        Action::FinalizeClaim { lock_id } => {
            let li = pre.timelock_index(lock_id.0@);
            let lock = pre.timelock_of(lock_id.0@);
            let c0 = pre.claim_of(lock_id.0@);
            let cfin = post.claim_of(lock_id.0@);
            &&& (lock.status is ClaimRevealed ==> {
                let agent = c0.agent_id.unwrap();
                let ai = pre.account_index(agent@);
                &&& post.accounts@ == pre.accounts@.update(
                    ai,
                    Account {
                        balance: (pre.account_of(agent@).balance + lock.amount
                            + c0.commit_bond) as u128,
                        ..pre.account_of(agent@)
                    },
                )
                &&& post.timelocks@ == pre.timelocks@.update(
                    li,
                    TimeLockContract {
                        status: TimeLockStatus::ClaimFinalized {
                            paid_to: agent,
                            finalized_at: now,
                        },
                        ..lock
                    },
                )
                &&& cfin.commit_bond == 0
                &&& cfin.challenge_bond == c0.challenge_bond
            })
            &&& (lock.status is ClaimChallenged ==> {
                let challenger = c0.challenger.unwrap();
                let chi = pre.account_index(challenger@);
                let sei = pre.account_index(lock.sender@);
                let payout = c0.challenge_bond + c0.commit_bond;
                &&& (chi == sei ==> post.accounts@ == pre.accounts@.update(
                    chi,
                    Account {
                        balance: (pre.account_of(challenger@).balance + payout
                            + lock.amount) as u128,
                        ..pre.account_of(challenger@)
                    },
                ))
                &&& (chi != sei ==> post.accounts@ == pre.accounts@.update(
                    chi,
                    Account {
                        balance: (pre.account_of(challenger@).balance + payout) as u128,
                        ..pre.account_of(challenger@)
                    },
                ).update(
                    sei,
                    Account {
                        balance: (pre.account_of(lock.sender@).balance + lock.amount) as u128,
                        ..pre.account_of(lock.sender@)
                    },
                ))
                &&& post.timelocks@ == pre.timelocks@.update(
                    li,
                    TimeLockContract {
                        status: TimeLockStatus::ClaimSlashed {
                            reason: crate::timelock::SlashReason::SuccessfulChallenge,
                            slashed_at: now,
                        },
                        ..lock
                    },
                )
                &&& cfin.commit_bond == 0
                &&& cfin.challenge_bond == 0
            })
            &&& post.claims@.len() == pre.claims@.len()
            &&& post.forfeited == pre.forfeited
            &&& post.vertices == pre.vertices
            &&& post.dag_tips == pre.dag_tips
            &&& post.providers == pre.providers
            &&& post.schemas == pre.schemas
            &&& post.oracle_snapshots == pre.oracle_snapshots
            &&& post.oracle_submissions == pre.oracle_submissions
            &&& post.next_schema_id_counter == pre.next_schema_id_counter
        },
        Action::RegisterProvider { provider_class, jurisdictions, bond_amount } => {
            let si = pre.account_index(sender@);
            let pfin = post.provider_of(sender@);
            &&& post.accounts@ == pre.accounts@.update(
                si,
                Account {
                    balance: (pre.account_of(sender@).balance - bond_amount) as u128,
                    ..pre.account_of(sender@)
                },
            )
            &&& post.providers@.len() == pre.providers@.len() + 1
            &&& post.providers@.drop_last() == pre.providers@
            &&& post.has_provider(sender@)
            &&& pfin.provider_id == sender
            &&& pfin.provider_class@ == provider_class@
            &&& crate::strutil::str_seq_eqv(pfin.jurisdictions@, jurisdictions@)
            &&& pfin.status is Active
            &&& pfin.registration_bond == bond_amount
            &&& pfin.registered_at == now
            &&& pfin.public_keys@.len() == 1
            &&& post.vertices == pre.vertices
            &&& post.timelocks == pre.timelocks
            &&& post.dag_tips == pre.dag_tips
            &&& post.schemas == pre.schemas
            &&& post.claims == pre.claims
            &&& post.oracle_snapshots == pre.oracle_snapshots
            &&& post.oracle_submissions == pre.oracle_submissions
            &&& post.next_schema_id_counter == pre.next_schema_id_counter
            &&& post.forfeited == pre.forfeited
        },
        Action::RevokeProvider { provider_id } => {
            let si = pre.account_index(sender@);
            let p0 = pre.provider_of(provider_id@);
            let pfin = post.provider_of(provider_id@);
            &&& post.accounts@ == pre.accounts@.update(
                si,
                Account {
                    balance: (pre.account_of(sender@).balance + p0.registration_bond) as u128,
                    ..pre.account_of(sender@)
                },
            )
            &&& post.providers@.len() == pre.providers@.len()
            &&& pfin.status == crate::claims::ProviderStatus::Revoked { revoked_at: now }
            &&& pfin.registration_bond == 0
            &&& pfin.provider_id == p0.provider_id
            &&& crate::account::pk_seq_eqv(pfin.public_keys@, p0.public_keys@)
            &&& pfin.provider_class@ == p0.provider_class@
            &&& unchanged_but_accounts_providers(post, pre)
        },
        Action::RotateProviderKey { new_public_key } => {
            let p0 = pre.provider_of(sender@);
            let pfin = post.provider_of(sender@);
            &&& post.providers@.len() == pre.providers@.len()
            &&& pfin.public_keys@.len() == p0.public_keys@.len() + 1
            &&& pfin.public_keys@.last()@ == new_public_key@
            &&& crate::account::pk_seq_eqv(pfin.public_keys@.drop_last(), p0.public_keys@)
            &&& pfin.status == p0.status
            &&& pfin.registration_bond == p0.registration_bond
            &&& pfin.provider_id == p0.provider_id
            &&& post.accounts == pre.accounts
            &&& unchanged_but_accounts_providers(post, pre)
        },
        Action::RegisterSchema {
            name,
            version,
            required_fields_hash,
            provider_class_thresholds,
            min_providers,
            max_cert_age_secs,
            bond_amount,
        } => {
            let si = pre.account_index(sender@);
            let id = pre.next_schema_id_counter;
            &&& post.accounts@ == pre.accounts@.update(
                si,
                Account {
                    balance: (pre.account_of(sender@).balance - bond_amount) as u128,
                    ..pre.account_of(sender@)
                },
            )
            &&& post.next_schema_id_counter == id + 1
            &&& post.has_schema(id)
            &&& {
                let sc = post.schema_of(id);
                &&& sc.schema_id == id
                &&& sc.name@ == name@
                &&& sc.version == version
                &&& sc.required_fields_hash == required_fields_hash
                &&& crate::claims::thresholds_eqv(
                    sc.provider_class_thresholds@,
                    provider_class_thresholds@,
                )
                &&& sc.signature_rules.min_providers == min_providers
                &&& sc.signature_rules.max_cert_age_secs == max_cert_age_secs
                &&& sc.active == true
                &&& sc.registered_by == sender
                &&& sc.registered_at == now
            }
            &&& post.forfeited == pre.forfeited + bond_amount
            &&& post.vertices == pre.vertices
            &&& post.timelocks == pre.timelocks
            &&& post.dag_tips == pre.dag_tips
            &&& post.providers == pre.providers
            &&& post.claims == pre.claims
            &&& post.oracle_snapshots == pre.oracle_snapshots
            &&& post.oracle_submissions == pre.oracle_submissions
        },
        Action::DeactivateSchema { schema_id } => {
            let sc0 = pre.schema_of(schema_id);
            let scfin = post.schema_of(schema_id);
            &&& post.schemas@.len() == pre.schemas@.len()
            &&& scfin.active == false
            &&& scfin.schema_id == sc0.schema_id
            &&& scfin.name@ == sc0.name@
            &&& scfin.version == sc0.version
            &&& scfin.registered_by == sc0.registered_by
            &&& post.accounts == pre.accounts
            &&& post.vertices == pre.vertices
            &&& post.timelocks == pre.timelocks
            &&& post.dag_tips == pre.dag_tips
            &&& post.providers == pre.providers
            &&& post.claims == pre.claims
            &&& post.oracle_snapshots == pre.oracle_snapshots
            &&& post.oracle_submissions == pre.oracle_submissions
            &&& post.next_schema_id_counter == pre.next_schema_id_counter
            &&& post.forfeited == pre.forfeited
        },
        Action::SubmitOraclePrice { pair, price_cents } => {
            let subs1 = post.oracle_submissions@;
            let fresh = spec_fresh_prices(subs1, pair@, now);
            &&& post.has_submission(pair@, sender@)
            &&& {
                let sub = subs1[post.submission_index(pair@, sender@)];
                sub.submitter == sender && sub.pair@ == pair@ && sub.price_cents == price_cents
                    && sub.submitted_at == now
            }
            &&& (pre.has_submission(pair@, sender@) ==> subs1.len()
                == pre.oracle_submissions@.len())
            &&& (!pre.has_submission(pair@, sender@) ==> subs1.len()
                == pre.oracle_submissions@.len() + 1)
            &&& (fresh.len() < crate::constants::ORACLE_MIN_SUBMISSIONS ==> post.oracle_snapshots
                == pre.oracle_snapshots)
            &&& (fresh.len() >= crate::constants::ORACLE_MIN_SUBMISSIONS ==> post.has_snapshot(
                pair@,
            ) && {
                let snap = post.snapshot_of(pair@);
                &&& snap.pair@ == pair@
                &&& snap.updated_at == now
                &&& snap.num_submissions == fresh.len() as u32
                &&& exists|sorted: Seq<u64>|
                    sorted_u64(sorted) && sorted.to_multiset() == fresh.to_multiset()
                        && sorted.len() == fresh.len() && snap.price_cents == sorted[(sorted.len()
                        / 2) as int]
            })
            &&& post.accounts == pre.accounts
            &&& post.vertices == pre.vertices
            &&& post.timelocks == pre.timelocks
            &&& post.dag_tips == pre.dag_tips
            &&& post.providers == pre.providers
            &&& post.schemas == pre.schemas
            &&& post.claims == pre.claims
            &&& post.next_schema_id_counter == pre.next_schema_id_counter
            &&& post.forfeited == pre.forfeited
        },
    }
}

/// Everything but accounts and timelocks is unchanged.
pub open spec fn unchanged_but_accounts_locks(a: StateDb, b: StateDb) -> bool {
    &&& a.vertices == b.vertices
    &&& a.dag_tips == b.dag_tips
    &&& a.next_schema_id_counter == b.next_schema_id_counter
    &&& a.providers == b.providers
    &&& a.schemas == b.schemas
    &&& a.claims == b.claims
    &&& a.oracle_snapshots == b.oracle_snapshots
    &&& a.oracle_submissions == b.oracle_submissions
    &&& a.forfeited == b.forfeited
}

/// Acceptance of an action never reads an account's nonce or auth policy,
/// so it is stable across the nonce bump and first-spend key installation
/// that `apply` performs before dispatching.
proof fn lemma_action_ok_stable(
    a: StateDb,
    b: StateDb,
    sender: AccountId,
    tx_id: TxId,
    act: Action,
    now: Timestamp,
)
    requires
        a.wf(),
        b.wf(),
        spec_bump_similar(a, b),
    ensures
        action_ok(a, sender, tx_id, act, now) == action_ok(b, sender, tx_id, act, now),
{
    assert forall|id: Seq<u8>| #[trigger] a.has_account(id) == b.has_account(id) by {
        if a.has_account(id) {
            let i = a.account_index(id);
            assert(b.accounts@[i].account_id@ == id);
        }
        if b.has_account(id) {
            let i = b.account_index(id);
            assert(a.accounts@[i].account_id@ == id);
        }
    }
    assert forall|id: Seq<u8>| a.has_account(id) implies #[trigger] a.account_index(id)
        == b.account_index(id) by {
        let i = a.account_index(id);
        assert(b.accounts@[i].account_id@ == id);
        b.lemma_account_index_unique(i, id);
    }
    assert forall|id: Seq<u8>| #[trigger] a.has_timelock(id) == b.has_timelock(id) by {
        assert(a.timelocks@ == b.timelocks@);
    }
    assert forall|id: Seq<u8>| a.has_timelock(id) implies #[trigger] a.timelock_index(id)
        == b.timelock_index(id) by {
        let i = a.timelock_index(id);
        assert(b.timelocks@[i].id@ == id);
        b.lemma_timelock_index_unique(i, id);
    }
    assert forall|id: Seq<u8>| #[trigger] a.has_claim(id) == b.has_claim(id) by {
        assert(a.claims@ == b.claims@);
    }
    assert forall|id: Seq<u8>| a.has_claim(id) implies #[trigger] a.claim_index(id)
        == b.claim_index(id) by {
        let i = a.claim_index(id);
        assert(b.claims@[i].lock_id@ == id);
        b.lemma_claim_index_unique(i, id);
    }
    assert forall|id: Seq<u8>| #[trigger] a.has_provider(id) == b.has_provider(id) by {
        assert(a.providers@ == b.providers@);
    }
    assert forall|id: Seq<u8>| a.has_provider(id) implies #[trigger] a.provider_index(id)
        == b.provider_index(id) by {
        let i = a.provider_index(id);
        assert(b.providers@[i].provider_id@ == id);
        b.lemma_provider_index_unique(i, id);
    }
    assert forall|id: u64| #[trigger] a.has_schema(id) == b.has_schema(id) by {
        assert(a.schemas@ == b.schemas@);
    }
    assert forall|id: u64| a.has_schema(id) implies #[trigger] a.schema_index(id)
        == b.schema_index(id) by {
        let i = a.schema_index(id);
        assert(b.schemas@[i].schema_id == id);
        b.lemma_schema_index_unique(i, id);
    }
    assert forall|pair: Seq<char>| #[trigger] a.has_snapshot(pair) == b.has_snapshot(pair) by {
        assert(a.oracle_snapshots@ == b.oracle_snapshots@);
    }
    assert forall|pair: Seq<char>| a.has_snapshot(pair) implies #[trigger] a.snapshot_index(pair)
        == b.snapshot_index(pair) by {
        let i = a.snapshot_index(pair);
        assert(b.oracle_snapshots@[i].pair@ == pair);
        b.lemma_snapshot_index_unique(i, pair);
    }
    match act {
        Action::TimeLockCreate {
            recipient,
            amount,
            unlock_at,
            memo,
            cancellation_window_secs,
            notify_recipient,
            tags,
            private,
            expiry_policy,
            split_policy,
            claim_attempts_max,
            recurring,
            extension_data,
        } => {
            assert(spec_create_err(
                a,
                sender,
                amount,
                unlock_at,
                now,
                memo,
                tags,
                extension_data,
                cancellation_window_secs,
                split_policy,
                recurring,
            ) == spec_create_err(
                b,
                sender,
                amount,
                unlock_at,
                now,
                memo,
                tags,
                extension_data,
                cancellation_window_secs,
                split_policy,
                recurring,
            ));
        },
        Action::OpenClaim { lock_id } => {},
        Action::SubmitClaimCommit { lock_id, commit_hash, bond_amount } => {},
        Action::RevealClaim { lock_id, payload, salt, certificates } => {
            if a.has_timelock(lock_id.0@) {
                assert(spec_in_reveal_window(a, lock_id.0@, now) == spec_in_reveal_window(
                    b,
                    lock_id.0@,
                    now,
                ));
            }
        },
        Action::ChallengeClaimReveal { lock_id, evidence_hash, bond_amount } => {
            if a.has_timelock(lock_id.0@) {
                assert(spec_in_challenge_window(a, lock_id.0@, now) == spec_in_challenge_window(
                    b,
                    lock_id.0@,
                    now,
                ));
            }
        },
        Action::FinalizeClaim { lock_id } => {
            if a.has_timelock(lock_id.0@) {
                assert(spec_in_challenge_window(a, lock_id.0@, now) == spec_in_challenge_window(
                    b,
                    lock_id.0@,
                    now,
                ));
            }
        },
        _ => {},
    }
}

/// The actions of a transaction applied in declared order: a chain of
/// `action_rel` steps from `pre` to `post`, each step also accepted.
pub open spec fn spec_actions_chain(
    pre: StateDb,
    post: StateDb,
    sender: AccountId,
    tx_id: TxId,
    actions: Seq<Action>,
    now: Timestamp,
) -> bool
    decreases actions.len(),
{
    if actions.len() == 0 {
        post == pre
    } else {
        exists|mid: StateDb|
            #[trigger] action_rel(pre, mid, sender, tx_id, actions[0], now) && action_ok(
                pre,
                sender,
                tx_id,
                actions[0],
                now,
            ) && spec_actions_chain(mid, post, sender, tx_id, actions.drop_first(), now)
    }
}

/// Extending a chain by one accepted step.
proof fn lemma_chain_snoc(
    pre: StateDb,
    mid: StateDb,
    post: StateDb,
    sender: AccountId,
    tx_id: TxId,
    actions: Seq<Action>,
    a: Action,
    now: Timestamp,
)
    requires
        spec_actions_chain(pre, mid, sender, tx_id, actions, now),
        action_ok(mid, sender, tx_id, a, now),
        action_rel(mid, post, sender, tx_id, a, now),
    ensures
        spec_actions_chain(pre, post, sender, tx_id, actions.push(a), now),
    decreases actions.len(),
{
    if actions.len() == 0 {
        assert(mid == pre);
        assert(actions.push(a)[0] == a);
        assert(actions.push(a).drop_first() =~= Seq::<Action>::empty());
        assert(spec_actions_chain(post, post, sender, tx_id, actions.push(a).drop_first(), now));
        assert(action_rel(pre, post, sender, tx_id, actions.push(a)[0], now) && action_ok(
            pre,
            sender,
            tx_id,
            actions.push(a)[0],
            now,
        ) && spec_actions_chain(post, post, sender, tx_id, actions.push(a).drop_first(), now));
    } else {
        let m0 = choose|m: StateDb|
            #[trigger] action_rel(pre, m, sender, tx_id, actions[0], now) && action_ok(
                pre,
                sender,
                tx_id,
                actions[0],
                now,
            ) && spec_actions_chain(m, mid, sender, tx_id, actions.drop_first(), now);
        lemma_chain_snoc(m0, mid, post, sender, tx_id, actions.drop_first(), a, now);
        assert(actions.push(a)[0] == actions[0]);
        assert(actions.push(a).drop_first() =~= actions.drop_first().push(a));
    }
}

impl StateEngine {
    /// The engine's store is well formed, every account is sane, and the
    /// supply never exceeds the fixed total.
    pub open spec fn inv(self) -> bool {
        &&& self.db.wf()
        &&& self.db.circulating() <= TOTAL_SUPPLY_CHRONOS
        &&& forall|i: int|
            0 <= i < self.db.accounts@.len() ==> account_wf(#[trigger] self.db.accounts@[i])
    }

    pub fn new(db: StateDb, pow_difficulty: u8) -> (r: StateEngine)
        ensures
            r.db == db,
            r.pow_difficulty == pow_difficulty,
    {
        StateEngine { db, pow_difficulty }
    }

    /// Transfer `amount` Chronos from `sender` to `to`. A missing recipient
    /// is materialized as a stub account; self-transfers are rejected.
    pub fn apply_transfer(&mut self, sender: &AccountId, to: &AccountId, amount: Balance) -> (r:
        Result<(), ChronxError>)
        requires
            old(self).inv(),
        ensures
            final(self).inv(),
            final(self).db.circulating() == old(self).db.circulating(),
            final(self).pow_difficulty == old(self).pow_difficulty,
            ids_nonces_preserved(old(self).db.accounts@, final(self).db.accounts@),
            locks_frozen(old(self).db.timelocks@, final(self).db.timelocks@),
            r is Ok <==> (amount > 0 && sender@ != to@ && old(self).db.has_account(sender@)
                && old(self).db.account_of(sender@).spec_spendable() >= amount),
            match r {
                Ok(_) => {
                    let si = old(self).db.account_index(sender@);
                    let debited = Account {
                        balance: (old(self).db.account_of(sender@).balance - amount) as u128,
                        ..old(self).db.account_of(sender@)
                    };
                    &&& if old(self).db.has_account(to@) {
                        let ri = old(self).db.account_index(to@);
                        final(self).db.accounts@ == old(self).db.accounts@.update(
                            si,
                            debited,
                        ).update(
                            ri,
                            Account {
                                balance: (old(self).db.account_of(to@).balance + amount) as u128,
                                ..old(self).db.account_of(to@)
                            },
                        )
                    } else {
                        final(self).db.accounts@.len() == old(self).db.accounts@.len() + 1
                            && final(self).db.accounts@.drop_last() == old(
                            self,
                        ).db.accounts@.update(si, debited) && is_stub_account(
                            final(self).db.accounts@.last(),
                            *to,
                            amount,
                        )
                    }
                    &&& final(self).db.timelocks == old(self).db.timelocks
                    &&& final(self).db.vertices == old(self).db.vertices
                    &&& final(self).db.dag_tips == old(self).db.dag_tips
                    &&& final(self).db.providers == old(self).db.providers
                    &&& final(self).db.schemas == old(self).db.schemas
                    &&& final(self).db.claims == old(self).db.claims
                    &&& final(self).db.oracle_snapshots == old(self).db.oracle_snapshots
                    &&& final(self).db.oracle_submissions == old(self).db.oracle_submissions
                    &&& final(self).db.next_schema_id_counter == old(
                        self,
                    ).db.next_schema_id_counter
                    &&& final(self).db.forfeited == old(self).db.forfeited
                },
                Err(e) => final(self).db == old(self).db && match e {
                    ChronxError::ZeroAmount => amount == 0,
                    ChronxError::SelfTransfer => amount > 0 && to@ == sender@,
                    ChronxError::UnknownAccount(a) => amount > 0 && to@ != sender@ && a == *sender
                        && !old(self).db.has_account(sender@),
                    ChronxError::InsufficientBalance { need, have } => amount > 0 && to@
                        != sender@ && old(self).db.has_account(sender@) && need == amount && have
                        == old(self).db.account_of(sender@).spec_spendable() && have < amount,
                    _ => false,
                },
            },
    {
        if amount == 0 {
            return Err(ChronxError::ZeroAmount);
        }
        if to.same(sender) {
            return Err(ChronxError::SelfTransfer);
        }
        let si = match self.db.find_account(sender) {
            Some(i) => i,
            None => {
                return Err(ChronxError::UnknownAccount(*sender));
            },
        };
        proof {
            self.db.lemma_account_index_unique(si as int, sender@);
        }
        let spendable = self.db.accounts[si].spendable_balance();
        if spendable < amount {
            return Err(ChronxError::InsufficientBalance { need: amount, have: spendable });
        }

        let ri_opt = self.db.find_account(to);

        let ghost db0 = self.db;

        // Debit the sender.
        let mut s_acc = placeholder_account();
        self.db.accounts.set_and_swap(si, &mut s_acc);
        s_acc.balance = s_acc.balance - amount;
        let ghost debited = s_acc;
        self.db.accounts.set(si, s_acc);
        proof {
            assert(self.db.accounts@ =~= db0.accounts@.update(si as int, debited));
            lemma_sum_by_update(db0.accounts@, |a: Account| account_funds(a), si as int, debited);
        }

        // Credit the recipient.
        match ri_opt {
            Some(ri) => {
                proof {
                    db0.lemma_account_index_unique(ri as int, to@);
                    lemma_two_accounts_bound(db0, si as int, ri as int);
                }
                let ghost db1 = self.db;
                let mut r_acc = placeholder_account();
                self.db.accounts.set_and_swap(ri, &mut r_acc);
                r_acc.balance = r_acc.balance + amount;
                let ghost credited = r_acc;
                self.db.accounts.set(ri, r_acc);
                proof {
                    assert(self.db.accounts@ =~= db1.accounts@.update(ri as int, credited));
                    lemma_sum_by_update(
                        db1.accounts@,
                        |a: Account| account_funds(a),
                        ri as int,
                        credited,
                    );
                }
            },
            None => {
                proof {
                    lemma_funds_bounds(db0);
                }
                let mut stub = Account::new(
                    *to,
                    AuthPolicy::SingleSig { public_key: DilithiumPublicKey(Vec::new()) },
                );
                stub.balance = amount;
                let ghost stub_g = stub;
                let ghost db1 = self.db;
                self.db.accounts.push(stub);
                proof {
                    lemma_sum_by_push(db1.accounts@, |a: Account| account_funds(a), stub_g);
                    assert(self.db.accounts@.drop_last() =~= db1.accounts@);
                }
            },
        }
        Ok(())
    }

    // ── Time-lock lifecycle ──────────────────────────────────────────────────

    /// Lock `amount` Chronos for the holder of `recipient` until `unlock_at`.
    pub fn apply_time_lock_create(
        &mut self,
        tx_id: &TxId,
        sender: &AccountId,
        recipient: &DilithiumPublicKey,
        amount: Balance,
        unlock_at: Timestamp,
        memo: &Option<String>,
        cancellation_window_secs: Option<u32>,
        notify_recipient: Option<bool>,
        tags: &Option<Vec<String>>,
        private: Option<bool>,
        expiry_policy: Option<ExpiryPolicy>,
        split_policy: &Option<SplitPolicy>,
        claim_attempts_max: Option<u8>,
        recurring: Option<RecurringPolicy>,
        extension_data: &Option<Vec<u8>>,
        now: Timestamp,
    ) -> (r: Result<(), ChronxError>)
        requires
            old(self).inv(),
            0 <= now < 0x4000_0000_0000_0000,
            !old(self).db.has_timelock(tx_id@),
        ensures
            final(self).inv(),
            final(self).db.circulating() == old(self).db.circulating(),
            final(self).pow_difficulty == old(self).pow_difficulty,
            ids_nonces_preserved(old(self).db.accounts@, final(self).db.accounts@),
            locks_frozen(old(self).db.timelocks@, final(self).db.timelocks@),
            r is Ok <==> spec_create_err(
                old(self).db,
                *sender,
                amount,
                unlock_at,
                now,
                *memo,
                *tags,
                *extension_data,
                cancellation_window_secs,
                *split_policy,
                recurring,
            ) is None,
            match r {
                Ok(_) => {
                    let si = old(self).db.account_index(sender@);
                    let debited = Account {
                        balance: (old(self).db.account_of(sender@).balance - amount) as u128,
                        ..old(self).db.account_of(sender@)
                    };
                    &&& final(self).db.accounts@ == old(self).db.accounts@.update(si, debited)
                    &&& final(self).db.timelocks@.len() == old(self).db.timelocks@.len() + 1
                    &&& final(self).db.timelocks@.drop_last() == old(self).db.timelocks@
                    &&& is_created_lock(
                        final(self).db.timelocks@.last(),
                        *tx_id,
                        *sender,
                        *recipient,
                        amount,
                        unlock_at,
                        *memo,
                        cancellation_window_secs,
                        notify_recipient,
                        *tags,
                        private,
                        expiry_policy,
                        *split_policy,
                        claim_attempts_max,
                        recurring,
                        *extension_data,
                        now,
                    )
                    &&& final(self).db.vertices == old(self).db.vertices
                    &&& final(self).db.dag_tips == old(self).db.dag_tips
                    &&& final(self).db.providers == old(self).db.providers
                    &&& final(self).db.schemas == old(self).db.schemas
                    &&& final(self).db.claims == old(self).db.claims
                    &&& final(self).db.oracle_snapshots == old(self).db.oracle_snapshots
                    &&& final(self).db.oracle_submissions == old(self).db.oracle_submissions
                    &&& final(self).db.next_schema_id_counter == old(
                        self,
                    ).db.next_schema_id_counter
                    &&& final(self).db.forfeited == old(self).db.forfeited
                },
                Err(e) => final(self).db == old(self).db && Some(e) == spec_create_err(
                    old(self).db,
                    *sender,
                    amount,
                    unlock_at,
                    now,
                    *memo,
                    *tags,
                    *extension_data,
                    cancellation_window_secs,
                    *split_policy,
                    recurring,
                ),
            },
    {
        if amount == 0 {
            return Err(ChronxError::ZeroAmount);
        }
        if amount < MIN_LOCK_AMOUNT_CHRONOS {
            return Err(ChronxError::LockAmountTooSmall { min: MIN_LOCK_AMOUNT_CHRONOS });
        }
        if unlock_at <= now {
            return Err(ChronxError::UnlockTimestampInPast);
        }
        if unlock_at < now + MIN_LOCK_DURATION_SECS {
            return Err(ChronxError::LockDurationTooShort { min_secs: MIN_LOCK_DURATION_SECS });
        }
        let max_unlock: i64 = now + (MAX_LOCK_DURATION_YEARS as i64) * 365 * 24 * 3600;
        if unlock_at > max_unlock {
            return Err(ChronxError::LockDurationTooLong { max_years: MAX_LOCK_DURATION_YEARS });
        }
        match memo {
            Some(m) => {
                if m.as_str().len() > MAX_MEMO_BYTES {
                    return Err(ChronxError::MemoTooLong { max: MAX_MEMO_BYTES });
                }
            },
            None => (),
        }
        match tags {
            Some(t) => {
                if t.len() > MAX_TAGS_PER_LOCK {
                    return Err(ChronxError::TooManyTags { max: MAX_TAGS_PER_LOCK });
                }
                let n: usize = t.len();
                let mut i: usize = 0;
                #[verifier::loop_isolation(false)]
                while i < n
                    invariant
                        n == t@.len(),
                        i <= n,
                        forall|j: int|
                            0 <= j < i ==> spec_str_len(#[trigger] t@[j]@) <= MAX_TAG_LENGTH,
                    decreases n - i,
                {
                    if t[i].as_str().len() > MAX_TAG_LENGTH {
                        return Err(ChronxError::TagTooLong { max: MAX_TAG_LENGTH });
                    }
                    i += 1;
                }
            },
            None => (),
        }
        match extension_data {
            Some(ed) => {
                if ed.len() > MAX_EXTENSION_DATA_BYTES {
                    return Err(ChronxError::ExtensionDataTooLarge {
                        max: MAX_EXTENSION_DATA_BYTES,
                    });
                }
            },
            None => (),
        }
        match cancellation_window_secs {
            Some(w) => {
                if w > CANCELLATION_WINDOW_MAX_SECS {
                    return Err(ChronxError::CancellationWindowTooLong {
                        max: CANCELLATION_WINDOW_MAX_SECS,
                    });
                }
            },
            None => (),
        }
        match split_policy {
            Some(sp) => {
                let total = bps_total(&sp.recipients);
                if total != 10_000 {
                    return Err(ChronxError::SplitPolicyBasisPointsMismatch {
                        got: #[verifier::truncate] (total as u32),
                    });
                }
            },
            None => (),
        }
        match recurring {
            Some(rp) => {
                let count: u32 = match rp {
                    RecurringPolicy::Off => 0,
                    RecurringPolicy::Weekly { count } => count,
                    RecurringPolicy::Monthly { count } => count,
                    RecurringPolicy::Annual { count } => count,
                };
                if count > MAX_RECURRING_COUNT {
                    return Err(ChronxError::RecurringCountTooLarge { max: MAX_RECURRING_COUNT });
                }
            },
            None => (),
        }
        let si = match self.db.find_account(sender) {
            Some(i) => i,
            None => {
                return Err(ChronxError::UnknownAccount(*sender));
            },
        };
        proof {
            self.db.lemma_account_index_unique(si as int, sender@);
        }
        let spendable = self.db.accounts[si].spendable_balance();
        if spendable < amount {
            return Err(ChronxError::InsufficientBalance { need: amount, have: spendable });
        }

        let ghost db0 = self.db;

        // Debit the sender and persist the new lock in Pending status.
        let mut s_acc = placeholder_account();
        self.db.accounts.set_and_swap(si, &mut s_acc);
        s_acc.balance = s_acc.balance - amount;
        let ghost debited = s_acc;
        self.db.accounts.set(si, s_acc);
        proof {
            assert(self.db.accounts@ =~= db0.accounts@.update(si as int, debited));
            lemma_sum_by_update(db0.accounts@, |a: Account| account_funds(a), si as int, debited);
        }

        let recipient_account_id = account_id_from_pubkey(recipient.0.as_slice());
        let contract = TimeLockContract {
            id: *tx_id,
            sender: *sender,
            recipient_key: recipient.clone(),
            recipient_account_id,
            amount,
            unlock_at,
            created_at: now,
            status: TimeLockStatus::Pending,
            memo: match memo {
                None => None,
                Some(m) => Some(m.clone()),
            },
            lock_version: 0,
            claim_policy: None,
            beneficiary_anchor_commitment: None,
            org_identifier: None,
            cancellation_window_secs,
            notify_recipient: match notify_recipient {
                Some(b) => b,
                None => true,
            },
            tags: match tags {
                None => None,
                Some(t) => Some(crate::strutil::clone_string_vec(t)),
            },
            private: match private {
                Some(b) => b,
                None => false,
            },
            expiry_policy,
            split_policy: match split_policy {
                None => None,
                Some(p) => Some(SplitPolicy { recipients: crate::timelock::clone_recipients(&p.recipients) }),
            },
            claim_attempts_max,
            recurring,
            extension_data: match extension_data {
                None => None,
                Some(v) => Some(crate::types::clone_bytes(v)),
            },
        };
        let ghost contract_g = contract;
        let ghost db1 = self.db;
        self.db.timelocks.push(contract);
        proof {
            lemma_sum_by_push(db1.timelocks@, |l: TimeLockContract| lock_funds(l), contract_g);
            assert(self.db.timelocks@.drop_last() =~= db1.timelocks@);
            assert(lock_funds(contract_g) == amount);
        }
        Ok(())
    }

    /// Claim a matured legacy (version-0) lock; only the registered
    /// recipient may claim, and only while the lock is Pending.
    pub fn apply_time_lock_claim(&mut self, sender: &AccountId, lock_id: &TxId, now: Timestamp)
        -> (r: Result<(), ChronxError>)
        requires
            old(self).inv(),
        ensures
            final(self).inv(),
            final(self).db.circulating() == old(self).db.circulating(),
            final(self).pow_difficulty == old(self).pow_difficulty,
            ids_nonces_preserved(old(self).db.accounts@, final(self).db.accounts@),
            locks_frozen(old(self).db.timelocks@, final(self).db.timelocks@),
            r is Ok <==> (old(self).db.has_account(sender@) && old(self).db.has_timelock(lock_id@)
                && !(old(self).db.timelock_of(lock_id@).lock_version >= 1 && old(
                self,
            ).db.timelock_of(lock_id@).claim_policy is Some) && old(self).db.timelock_of(lock_id@)
                .status is Pending && now >= old(self).db.timelock_of(lock_id@).unlock_at
                && sender@ == blake3_of(old(self).db.timelock_of(lock_id@).recipient_key@)),
            match r {
                Ok(_) => {
                    let si = old(self).db.account_index(sender@);
                    let li = old(self).db.timelock_index(lock_id@);
                    let lock = old(self).db.timelock_of(lock_id@);
                    &&& final(self).db.accounts@ == old(self).db.accounts@.update(
                        si,
                        Account {
                            balance: (old(self).db.account_of(sender@).balance
                                + lock.amount) as u128,
                            ..old(self).db.account_of(sender@)
                        },
                    )
                    &&& final(self).db.timelocks@ == old(self).db.timelocks@.update(
                        li,
                        TimeLockContract {
                            status: TimeLockStatus::Claimed { claimed_at: now },
                            ..lock
                        },
                    )
                    &&& final(self).db.vertices == old(self).db.vertices
                    &&& final(self).db.dag_tips == old(self).db.dag_tips
                    &&& final(self).db.providers == old(self).db.providers
                    &&& final(self).db.schemas == old(self).db.schemas
                    &&& final(self).db.claims == old(self).db.claims
                    &&& final(self).db.oracle_snapshots == old(self).db.oracle_snapshots
                    &&& final(self).db.oracle_submissions == old(self).db.oracle_submissions
                    &&& final(self).db.next_schema_id_counter == old(
                        self,
                    ).db.next_schema_id_counter
                    &&& final(self).db.forfeited == old(self).db.forfeited
                },
                Err(e) => final(self).db == old(self).db && match e {
                    ChronxError::UnknownAccount(a) => a == *sender && !old(self).db.has_account(
                        sender@,
                    ),
                    ChronxError::TimeLockNotFound(t) => t == *lock_id && old(self).db.has_account(
                        sender@,
                    ) && !old(self).db.has_timelock(lock_id@),
                    ChronxError::LockRequiresClaimsFramework => old(self).db.has_account(sender@)
                        && old(self).db.has_timelock(lock_id@) && old(self).db.timelock_of(
                        lock_id@,
                    ).lock_version >= 1 && old(self).db.timelock_of(lock_id@).claim_policy is Some,
                    ChronxError::TimeLockAlreadyClaimed => old(self).db.has_account(sender@)
                        && old(self).db.has_timelock(lock_id@) && !(old(self).db.timelock_of(
                        lock_id@,
                    ).lock_version >= 1 && old(self).db.timelock_of(lock_id@).claim_policy is Some)
                        && !(old(self).db.timelock_of(lock_id@).status is Pending),
                    ChronxError::TimeLockNotMatured { unlock_time } => old(self).db.has_account(
                        sender@,
                    ) && old(self).db.has_timelock(lock_id@) && !(old(self).db.timelock_of(
                        lock_id@,
                    ).lock_version >= 1 && old(self).db.timelock_of(lock_id@).claim_policy is Some)
                        && old(self).db.timelock_of(lock_id@).status is Pending && now < old(
                        self,
                    ).db.timelock_of(lock_id@).unlock_at && unlock_time == old(
                        self,
                    ).db.timelock_of(lock_id@).unlock_at,
                    ChronxError::AuthPolicyViolation => old(self).db.has_account(sender@) && old(
                        self,
                    ).db.has_timelock(lock_id@) && !(old(self).db.timelock_of(lock_id@)
                        .lock_version >= 1 && old(self).db.timelock_of(lock_id@)
                        .claim_policy is Some) && old(self).db.timelock_of(lock_id@)
                        .status is Pending && now >= old(self).db.timelock_of(lock_id@).unlock_at
                        && sender@ != blake3_of(old(self).db.timelock_of(lock_id@)
                        .recipient_key@),
                    _ => false,
                },
            },
    {
        let si = match self.db.find_account(sender) {
            Some(i) => i,
            None => {
                return Err(ChronxError::UnknownAccount(*sender));
            },
        };
        proof {
            self.db.lemma_account_index_unique(si as int, sender@);
        }
        let li = match self.db.find_timelock(lock_id) {
            Some(i) => i,
            None => {
                return Err(ChronxError::TimeLockNotFound(*lock_id));
            },
        };
        proof {
            self.db.lemma_timelock_index_unique(li as int, lock_id@);
        }

        let is_v1 = self.db.timelocks[li].lock_version >= 1;
        let has_policy = match self.db.timelocks[li].claim_policy {
            Some(_) => true,
            None => false,
        };
        if is_v1 && has_policy {
            return Err(ChronxError::LockRequiresClaimsFramework);
        }
        let is_pending = match self.db.timelocks[li].status {
            TimeLockStatus::Pending => true,
            _ => false,
        };
        if !is_pending {
            return Err(ChronxError::TimeLockAlreadyClaimed);
        }
        if now < self.db.timelocks[li].unlock_at {
            return Err(ChronxError::TimeLockNotMatured {
                unlock_time: self.db.timelocks[li].unlock_at,
            });
        }
        let expected = account_id_from_pubkey(self.db.timelocks[li].recipient_key.0.as_slice());
        if !sender.same(&expected) {
            return Err(ChronxError::AuthPolicyViolation);
        }

        let ghost db0 = self.db;
        proof {
            let fa = |a: Account| account_funds(a);
            let fl = |l: TimeLockContract| lock_funds(l);
            lemma_sum_by_nonneg(db0.accounts@, fa);
            lemma_sum_by_nonneg(db0.timelocks@, fl);
            lemma_sum_by_nonneg(db0.claims@, |c: crate::claims::ClaimState| claim_funds(c));
            lemma_sum_by_nonneg(
                db0.providers@,
                |pr: crate::claims::ProviderRecord| provider_funds(pr),
            );
            assert(fa(db0.accounts@[si as int]) <= sum_by(db0.accounts@, fa));
            assert(fl(db0.timelocks@[li as int]) <= sum_by(db0.timelocks@, fl));
        }

        // Credit the recipient.
        let amount = self.db.timelocks[li].amount;
        let mut s_acc = placeholder_account();
        self.db.accounts.set_and_swap(si, &mut s_acc);
        s_acc.balance = s_acc.balance + amount;
        let ghost credited = s_acc;
        self.db.accounts.set(si, s_acc);
        proof {
            assert(self.db.accounts@ =~= db0.accounts@.update(si as int, credited));
            lemma_sum_by_update(db0.accounts@, |a: Account| account_funds(a), si as int, credited);
        }

        // Mark the lock claimed.
        let ghost db1 = self.db;
        let mut lock = placeholder_lock(lock_id);
        self.db.timelocks.set_and_swap(li, &mut lock);
        lock.status = TimeLockStatus::Claimed { claimed_at: now };
        let ghost claimed = lock;
        self.db.timelocks.set(li, lock);
        proof {
            assert(self.db.timelocks@ =~= db1.timelocks@.update(li as int, claimed));
            lemma_sum_by_update(
                db1.timelocks@,
                |l: TimeLockContract| lock_funds(l),
                li as int,
                claimed,
            );
        }
        Ok(())
    }

    /// Cancel a Pending lock within its cancellation window; only the
    /// original sender may cancel, and the funds return to them.
    pub fn apply_cancel_time_lock(&mut self, sender: &AccountId, lock_id: &TxId, now: Timestamp)
        -> (r: Result<(), ChronxError>)
        requires
            old(self).inv(),
            0 <= now < 0x4000_0000_0000_0000,
        ensures
            final(self).inv(),
            final(self).db.circulating() == old(self).db.circulating(),
            final(self).pow_difficulty == old(self).pow_difficulty,
            ids_nonces_preserved(old(self).db.accounts@, final(self).db.accounts@),
            locks_frozen(old(self).db.timelocks@, final(self).db.timelocks@),
            r is Ok <==> (old(self).db.has_account(sender@) && old(self).db.has_timelock(lock_id@)
                && old(self).db.timelock_of(lock_id@).sender@ == sender@ && old(
                self,
            ).db.timelock_of(lock_id@).status is Pending && old(self).db.timelock_of(lock_id@)
                .cancellation_window_secs is Some && now <= old(self).db.timelock_of(lock_id@)
                .created_at + old(self).db.timelock_of(
                lock_id@,
            ).cancellation_window_secs.unwrap()),
            match r {
                Ok(_) => {
                    let si = old(self).db.account_index(sender@);
                    let li = old(self).db.timelock_index(lock_id@);
                    let lock = old(self).db.timelock_of(lock_id@);
                    &&& final(self).db.accounts@ == old(self).db.accounts@.update(
                        si,
                        Account {
                            balance: (old(self).db.account_of(sender@).balance
                                + lock.amount) as u128,
                            ..old(self).db.account_of(sender@)
                        },
                    )
                    &&& final(self).db.timelocks@ == old(self).db.timelocks@.update(
                        li,
                        TimeLockContract {
                            status: TimeLockStatus::Cancelled { cancelled_at: now },
                            ..lock
                        },
                    )
                    &&& final(self).db.vertices == old(self).db.vertices
                    &&& final(self).db.dag_tips == old(self).db.dag_tips
                    &&& final(self).db.providers == old(self).db.providers
                    &&& final(self).db.schemas == old(self).db.schemas
                    &&& final(self).db.claims == old(self).db.claims
                    &&& final(self).db.oracle_snapshots == old(self).db.oracle_snapshots
                    &&& final(self).db.oracle_submissions == old(self).db.oracle_submissions
                    &&& final(self).db.next_schema_id_counter == old(
                        self,
                    ).db.next_schema_id_counter
                    &&& final(self).db.forfeited == old(self).db.forfeited
                },
                Err(e) => final(self).db == old(self).db && match e {
                    ChronxError::UnknownAccount(a) => a == *sender && !old(self).db.has_account(
                        sender@,
                    ),
                    ChronxError::TimeLockNotFound(t) => t == *lock_id && old(self).db.has_account(
                        sender@,
                    ) && !old(self).db.has_timelock(lock_id@),
                    ChronxError::CancelNotBySender => old(self).db.has_account(sender@) && old(
                        self,
                    ).db.has_timelock(lock_id@) && old(self).db.timelock_of(lock_id@).sender@
                        != sender@,
                    ChronxError::InvalidClaimStateTransition => old(self).db.has_account(sender@)
                        && old(self).db.has_timelock(lock_id@) && old(self).db.timelock_of(
                        lock_id@,
                    ).sender@ == sender@ && !(old(self).db.timelock_of(lock_id@)
                        .status is Pending),
                    ChronxError::TimeLockIrrevocable => old(self).db.has_account(sender@) && old(
                        self,
                    ).db.has_timelock(lock_id@) && old(self).db.timelock_of(lock_id@).sender@
                        == sender@ && old(self).db.timelock_of(lock_id@).status is Pending && old(
                        self,
                    ).db.timelock_of(lock_id@).cancellation_window_secs is None,
                    ChronxError::CancellationWindowExpired => old(self).db.has_account(sender@)
                        && old(self).db.has_timelock(lock_id@) && old(self).db.timelock_of(
                        lock_id@,
                    ).sender@ == sender@ && old(self).db.timelock_of(lock_id@).status is Pending
                        && old(self).db.timelock_of(lock_id@).cancellation_window_secs is Some
                        && now > old(self).db.timelock_of(lock_id@).created_at + old(
                        self,
                    ).db.timelock_of(lock_id@).cancellation_window_secs.unwrap(),
                    _ => false,
                },
            },
    {
        let si = match self.db.find_account(sender) {
            Some(i) => i,
            None => {
                return Err(ChronxError::UnknownAccount(*sender));
            },
        };
        proof {
            self.db.lemma_account_index_unique(si as int, sender@);
        }
        let li = match self.db.find_timelock(lock_id) {
            Some(i) => i,
            None => {
                return Err(ChronxError::TimeLockNotFound(*lock_id));
            },
        };
        proof {
            self.db.lemma_timelock_index_unique(li as int, lock_id@);
        }

        if !self.db.timelocks[li].sender.same(sender) {
            return Err(ChronxError::CancelNotBySender);
        }
        let is_pending = match self.db.timelocks[li].status {
            TimeLockStatus::Pending => true,
            _ => false,
        };
        if !is_pending {
            return Err(ChronxError::InvalidClaimStateTransition);
        }
        let window = match self.db.timelocks[li].cancellation_window_secs {
            Some(w) => w,
            None => {
                return Err(ChronxError::TimeLockIrrevocable);
            },
        };
        let created_at = self.db.timelocks[li].created_at;
        let expired: bool = if created_at > now {
            false
        } else {
            now > created_at + (window as i64)
        };
        if expired {
            return Err(ChronxError::CancellationWindowExpired);
        }

        let ghost db0 = self.db;
        proof {
            let fa = |a: Account| account_funds(a);
            let fl = |l: TimeLockContract| lock_funds(l);
            lemma_sum_by_nonneg(db0.accounts@, fa);
            lemma_sum_by_nonneg(db0.timelocks@, fl);
            lemma_sum_by_nonneg(db0.claims@, |c: crate::claims::ClaimState| claim_funds(c));
            lemma_sum_by_nonneg(
                db0.providers@,
                |pr: crate::claims::ProviderRecord| provider_funds(pr),
            );
            assert(fa(db0.accounts@[si as int]) <= sum_by(db0.accounts@, fa));
            assert(fl(db0.timelocks@[li as int]) <= sum_by(db0.timelocks@, fl));
        }

        // Refund the sender.
        let amount = self.db.timelocks[li].amount;
        let mut s_acc = placeholder_account();
        self.db.accounts.set_and_swap(si, &mut s_acc);
        s_acc.balance = s_acc.balance + amount;
        let ghost credited = s_acc;
        self.db.accounts.set(si, s_acc);
        proof {
            assert(self.db.accounts@ =~= db0.accounts@.update(si as int, credited));
            lemma_sum_by_update(db0.accounts@, |a: Account| account_funds(a), si as int, credited);
        }

        // Mark the lock cancelled.
        let ghost db1 = self.db;
        let mut lock = placeholder_lock(lock_id);
        self.db.timelocks.set_and_swap(li, &mut lock);
        lock.status = TimeLockStatus::Cancelled { cancelled_at: now };
        let ghost cancelled = lock;
        self.db.timelocks.set(li, lock);
        proof {
            assert(self.db.timelocks@ =~= db1.timelocks@.update(li as int, cancelled));
            lemma_sum_by_update(
                db1.timelocks@,
                |l: TimeLockContract| lock_funds(l),
                li as int,
                cancelled,
            );
        }
        Ok(())
    }

    // ── Recovery workflow ────────────────────────────────────────────────────

    /// Initiate recovery of `target`: the initiator posts a bond and commits
    /// to evidence; the target must have no recovery in flight.
    pub fn apply_start_recovery(
        &mut self,
        sender: &AccountId,
        target: &AccountId,
        proposed_owner_key: &DilithiumPublicKey,
        evidence_hash: &crate::types::EvidenceHash,
        bond_amount: Balance,
        now: Timestamp,
    ) -> (r: Result<(), ChronxError>)
        requires
            old(self).inv(),
            0 <= now < 0x4000_0000_0000_0000,
        ensures
            final(self).inv(),
            final(self).db.circulating() == old(self).db.circulating(),
            final(self).pow_difficulty == old(self).pow_difficulty,
            ids_nonces_preserved(old(self).db.accounts@, final(self).db.accounts@),
            locks_frozen(old(self).db.timelocks@, final(self).db.timelocks@),
            r is Ok <==> (bond_amount >= crate::constants::MIN_RECOVERY_BOND_CHRONOS && old(
                self,
            ).db.has_account(sender@) && old(self).db.account_of(sender@).spec_spendable()
                >= bond_amount && old(self).db.has_account(target@) && !old(self).db.account_of(
                target@,
            ).recovery_state.active),
            match r {
                Ok(_) => {
                    let si = old(self).db.account_index(sender@);
                    let ti = old(self).db.account_index(target@);
                    let debited = Account {
                        balance: (old(self).db.account_of(sender@).balance - bond_amount) as u128,
                        ..old(self).db.account_of(sender@)
                    };
                    let base = if ti == si {
                        debited
                    } else {
                        old(self).db.account_of(target@)
                    };
                    let tfin = final(self).db.accounts@[ti];
                    &&& final(self).db.accounts@.len() == old(self).db.accounts@.len()
                    &&& forall|j: int|
                        0 <= j < old(self).db.accounts@.len() && j != ti && j != si
                            ==> final(self).db.accounts@[j] == old(self).db.accounts@[j]
                    &&& (si != ti ==> final(self).db.accounts@[si] == debited)
                    &&& tfin.account_id == base.account_id
                    &&& tfin.balance == base.balance
                    &&& tfin.auth_policy == base.auth_policy
                    &&& tfin.nonce == base.nonce
                    &&& tfin.verifier_stake == base.verifier_stake
                    &&& tfin.is_verifier == base.is_verifier
                    &&& tfin.post_recovery_restriction == base.post_recovery_restriction
                    &&& tfin.recovery_state.active == true
                    &&& opt_pk_view_eqv(
                        tfin.recovery_state.proposed_owner_key,
                        proposed_owner_key@,
                    )
                    &&& tfin.recovery_state.recovery_start_time == Some(now)
                    &&& tfin.recovery_state.recovery_execute_after == Some(
                        (now + crate::constants::RECOVERY_EXECUTION_DELAY_SECS) as i64,
                    )
                    &&& tfin.recovery_state.recovery_bond == bond_amount
                    &&& tfin.recovery_state.challenge_bond == base.recovery_state.challenge_bond
                    &&& tfin.recovery_state.decision_status == base.recovery_state.decision_status
                    &&& tfin.recovery_state.evidence_hash == Some(*evidence_hash)
                    &&& tfin.recovery_state.counter_evidence_hash
                        == base.recovery_state.counter_evidence_hash
                    &&& tfin.recovery_state.votes_approve@.len() == 0
                    &&& tfin.recovery_state.votes_reject@.len() == 0
                    &&& tfin.recovery_state.challenge_active == false
                    &&& unchanged_but_accounts(final(self).db, old(self).db)
                },
                Err(e) => final(self).db == old(self).db && match e {
                    ChronxError::RecoveryBondTooLow { min } => min
                        == crate::constants::MIN_RECOVERY_BOND_CHRONOS && bond_amount < min,
                    ChronxError::UnknownAccount(a) => bond_amount
                        >= crate::constants::MIN_RECOVERY_BOND_CHRONOS && ((a == *sender && !old(
                        self,
                    ).db.has_account(sender@)) || (a == *target && old(self).db.has_account(
                        sender@,
                    ) && old(self).db.account_of(sender@).spec_spendable() >= bond_amount && !old(
                        self,
                    ).db.has_account(target@))),
                    ChronxError::InsufficientBalance { need, have } => bond_amount
                        >= crate::constants::MIN_RECOVERY_BOND_CHRONOS && old(
                        self,
                    ).db.has_account(sender@) && need == bond_amount && have == old(
                        self,
                    ).db.account_of(sender@).spec_spendable() && have < bond_amount,
                    ChronxError::RecoveryAlreadyActive(a) => a == *target && bond_amount
                        >= crate::constants::MIN_RECOVERY_BOND_CHRONOS && old(
                        self,
                    ).db.has_account(sender@) && old(self).db.account_of(sender@).spec_spendable()
                        >= bond_amount && old(self).db.has_account(target@) && old(
                        self,
                    ).db.account_of(target@).recovery_state.active,
                    _ => false,
                },
            },
    {
        if bond_amount < crate::constants::MIN_RECOVERY_BOND_CHRONOS {
            return Err(ChronxError::RecoveryBondTooLow {
                min: crate::constants::MIN_RECOVERY_BOND_CHRONOS,
            });
        }
        let si = match self.db.find_account(sender) {
            Some(i) => i,
            None => {
                return Err(ChronxError::UnknownAccount(*sender));
            },
        };
        proof {
            self.db.lemma_account_index_unique(si as int, sender@);
        }
        let spendable = self.db.accounts[si].spendable_balance();
        if spendable < bond_amount {
            return Err(ChronxError::InsufficientBalance { need: bond_amount, have: spendable });
        }
        let ti = match self.db.find_account(target) {
            Some(i) => i,
            None => {
                return Err(ChronxError::UnknownAccount(*target));
            },
        };
        proof {
            self.db.lemma_account_index_unique(ti as int, target@);
        }
        if self.db.accounts[ti].recovery_state.active {
            return Err(ChronxError::RecoveryAlreadyActive(*target));
        }

        let ghost db0 = self.db;

        // Debit the initiator.
        let mut s_acc = placeholder_account();
        self.db.accounts.set_and_swap(si, &mut s_acc);
        s_acc.balance = s_acc.balance - bond_amount;
        let ghost debited = s_acc;
        self.db.accounts.set(si, s_acc);
        proof {
            assert(self.db.accounts@ =~= db0.accounts@.update(si as int, debited));
            lemma_sum_by_update(db0.accounts@, |a: Account| account_funds(a), si as int, debited);
        }

        // Open the recovery on the target.
        let ghost db1 = self.db;
        let mut t_acc = placeholder_account();
        self.db.accounts.set_and_swap(ti, &mut t_acc);
        t_acc.recovery_state.active = true;
        t_acc.recovery_state.proposed_owner_key = Some(proposed_owner_key.clone());
        t_acc.recovery_state.recovery_start_time = Some(now);
        t_acc.recovery_state.recovery_execute_after = Some(
            now + crate::constants::RECOVERY_EXECUTION_DELAY_SECS,
        );
        t_acc.recovery_state.recovery_bond = bond_amount;
        t_acc.recovery_state.evidence_hash = Some(*evidence_hash);
        t_acc.recovery_state.votes_approve = Vec::new();
        t_acc.recovery_state.votes_reject = Vec::new();
        t_acc.recovery_state.challenge_active = false;
        let ghost targeted = t_acc;
        self.db.accounts.set(ti, t_acc);
        proof {
            assert(self.db.accounts@ =~= db1.accounts@.update(ti as int, targeted));
            lemma_sum_by_update(db1.accounts@, |a: Account| account_funds(a), ti as int, targeted);
        }
        Ok(())
    }

    /// Challenge an in-progress recovery within its challenge window; the
    /// challenger posts a bond and counter-evidence.
    pub fn apply_challenge_recovery(
        &mut self,
        sender: &AccountId,
        target: &AccountId,
        counter_evidence_hash: &crate::types::EvidenceHash,
        bond_amount: Balance,
        now: Timestamp,
    ) -> (r: Result<(), ChronxError>)
        requires
            old(self).inv(),
            0 <= now < 0x4000_0000_0000_0000,
        ensures
            final(self).inv(),
            final(self).db.circulating() == old(self).db.circulating(),
            final(self).pow_difficulty == old(self).pow_difficulty,
            ids_nonces_preserved(old(self).db.accounts@, final(self).db.accounts@),
            locks_frozen(old(self).db.timelocks@, final(self).db.timelocks@),
            r is Ok <==> (bond_amount >= crate::constants::MIN_CHALLENGE_BOND_CHRONOS && old(
                self,
            ).db.has_account(sender@) && old(self).db.account_of(sender@).spec_spendable()
                >= bond_amount && old(self).db.has_account(target@) && old(self).db.account_of(
                target@,
            ).recovery_state.active && now <= old(self).db.account_of(
                target@,
            ).recovery_state.recovery_start_time.unwrap()
                + crate::constants::RECOVERY_CHALLENGE_WINDOW_SECS),
            match r {
                Ok(_) => {
                    let si = old(self).db.account_index(sender@);
                    let ti = old(self).db.account_index(target@);
                    let debited = Account {
                        balance: (old(self).db.account_of(sender@).balance - bond_amount) as u128,
                        ..old(self).db.account_of(sender@)
                    };
                    let base = if ti == si {
                        debited
                    } else {
                        old(self).db.account_of(target@)
                    };
                    let targeted = Account {
                        recovery_state: RecoveryState {
                            challenge_active: true,
                            challenge_bond: bond_amount,
                            counter_evidence_hash: Some(*counter_evidence_hash),
                            ..base.recovery_state
                        },
                        ..base
                    };
                    &&& final(self).db.accounts@ == old(self).db.accounts@.update(
                        si,
                        debited,
                    ).update(ti, targeted)
                    &&& final(self).db.forfeited == old(self).db.forfeited + old(
                        self,
                    ).db.account_of(target@).recovery_state.challenge_bond
                    &&& unchanged_but_accounts_forfeited(final(self).db, old(self).db)
                },
                Err(e) => final(self).db == old(self).db && match e {
                    ChronxError::ChallengeBondTooLow { min } => min
                        == crate::constants::MIN_CHALLENGE_BOND_CHRONOS && bond_amount < min,
                    ChronxError::UnknownAccount(a) => bond_amount
                        >= crate::constants::MIN_CHALLENGE_BOND_CHRONOS && ((a == *sender && !old(
                        self,
                    ).db.has_account(sender@)) || (a == *target && old(self).db.has_account(
                        sender@,
                    ) && old(self).db.account_of(sender@).spec_spendable() >= bond_amount && !old(
                        self,
                    ).db.has_account(target@))),
                    ChronxError::InsufficientBalance { need, have } => bond_amount
                        >= crate::constants::MIN_CHALLENGE_BOND_CHRONOS && old(
                        self,
                    ).db.has_account(sender@) && need == bond_amount && have == old(
                        self,
                    ).db.account_of(sender@).spec_spendable() && have < bond_amount,
                    ChronxError::NoActiveRecovery(a) => a == *target && old(self).db.has_account(
                        sender@,
                    ) && old(self).db.has_account(target@) && !old(self).db.account_of(
                        target@,
                    ).recovery_state.active,
                    ChronxError::ChallengeWindowClosed => old(self).db.has_account(sender@)
                        && old(self).db.has_account(target@) && old(self).db.account_of(
                        target@,
                    ).recovery_state.active && now > old(self).db.account_of(
                        target@,
                    ).recovery_state.recovery_start_time.unwrap()
                        + crate::constants::RECOVERY_CHALLENGE_WINDOW_SECS,
                    _ => false,
                },
            },
    {
        if bond_amount < crate::constants::MIN_CHALLENGE_BOND_CHRONOS {
            return Err(ChronxError::ChallengeBondTooLow {
                min: crate::constants::MIN_CHALLENGE_BOND_CHRONOS,
            });
        }
        let si = match self.db.find_account(sender) {
            Some(i) => i,
            None => {
                return Err(ChronxError::UnknownAccount(*sender));
            },
        };
        proof {
            self.db.lemma_account_index_unique(si as int, sender@);
        }
        let spendable = self.db.accounts[si].spendable_balance();
        if spendable < bond_amount {
            return Err(ChronxError::InsufficientBalance { need: bond_amount, have: spendable });
        }
        let ti = match self.db.find_account(target) {
            Some(i) => i,
            None => {
                return Err(ChronxError::UnknownAccount(*target));
            },
        };
        proof {
            self.db.lemma_account_index_unique(ti as int, target@);
        }
        if !self.db.accounts[ti].recovery_state.active {
            return Err(ChronxError::NoActiveRecovery(*target));
        }
        let rst = match self.db.accounts[ti].recovery_state.recovery_start_time {
            Some(t) => t,
            None => 0,
        };
        let closed: bool = if rst > now {
            false
        } else {
            now > rst + crate::constants::RECOVERY_CHALLENGE_WINDOW_SECS
        };
        if closed {
            return Err(ChronxError::ChallengeWindowClosed);
        }

        let ghost db0 = self.db;

        // Debit the challenger.
        let mut s_acc = placeholder_account();
        self.db.accounts.set_and_swap(si, &mut s_acc);
        s_acc.balance = s_acc.balance - bond_amount;
        let ghost debited = s_acc;
        self.db.accounts.set(si, s_acc);
        proof {
            assert(self.db.accounts@ =~= db0.accounts@.update(si as int, debited));
            lemma_sum_by_update(db0.accounts@, |a: Account| account_funds(a), si as int, debited);
        }

        // Record the challenge; an overwritten earlier challenge bond is
        // forfeited.
        let ghost db1 = self.db;
        let mut t_acc = placeholder_account();
        self.db.accounts.set_and_swap(ti, &mut t_acc);
        let old_cb = t_acc.recovery_state.challenge_bond;
        t_acc.recovery_state.challenge_active = true;
        t_acc.recovery_state.challenge_bond = bond_amount;
        t_acc.recovery_state.counter_evidence_hash = Some(*counter_evidence_hash);
        let ghost targeted = t_acc;
        self.db.accounts.set(ti, t_acc);
        proof {
            assert(self.db.accounts@ =~= db1.accounts@.update(ti as int, targeted));
            lemma_sum_by_update(db1.accounts@, |a: Account| account_funds(a), ti as int, targeted);
            lemma_funds_bounds(db0);
        }
        self.db.forfeited = self.db.forfeited + old_cb;
        Ok(())
    }

    /// Finalize an approved recovery after the execution delay: the auth
    /// policy rotates to the proposed owner and the recovery record clears;
    /// the bonds held against the target are forfeited.
    pub fn apply_finalize_recovery(&mut self, target: &AccountId, now: Timestamp) -> (r: Result<
        (),
        ChronxError,
    >)
        requires
            old(self).inv(),
        ensures
            final(self).inv(),
            final(self).db.circulating() == old(self).db.circulating(),
            final(self).pow_difficulty == old(self).pow_difficulty,
            ids_nonces_preserved(old(self).db.accounts@, final(self).db.accounts@),
            locks_frozen(old(self).db.timelocks@, final(self).db.timelocks@),
            r is Ok <==> (old(self).db.has_account(target@) && old(self).db.account_of(
                target@,
            ).recovery_state.active && now >= old(self).db.account_of(
                target@,
            ).recovery_state.recovery_execute_after.unwrap() && old(self).db.account_of(
                target@,
            ).recovery_state.votes_approve@.len()
                >= crate::constants::RECOVERY_VERIFIER_THRESHOLD),
            match r {
                Ok(_) => {
                    let ti = old(self).db.account_index(target@);
                    let t0 = old(self).db.account_of(target@);
                    &&& final(self).db.accounts@.len() == old(self).db.accounts@.len()
                    &&& forall|j: int|
                        0 <= j < old(self).db.accounts@.len() && j != ti
                            ==> final(self).db.accounts@[j] == old(self).db.accounts@[j]
                    &&& final(self).db.accounts@[ti].balance == t0.balance
                    &&& final(self).db.accounts@[ti].nonce == t0.nonce
                    &&& final(self).db.accounts@[ti].account_id == t0.account_id
                    &&& (final(self).db.accounts@[ti].auth_policy matches
                        AuthPolicy::RecoveryEnabled { owner_key, recovery_config }
                        && opt_pk_view_eqv(t0.recovery_state.proposed_owner_key, owner_key@)
                        && recovery_config.execution_delay_override is None
                        && recovery_config.post_recovery_restrictions == true)
                    &&& recovery_default_spec(final(self).db.accounts@[ti].recovery_state)
                    &&& final(self).db.forfeited == old(self).db.forfeited
                        + t0.recovery_state.recovery_bond + t0.recovery_state.challenge_bond
                    &&& unchanged_but_accounts_forfeited(final(self).db, old(self).db)
                },
                Err(e) => final(self).db == old(self).db && match e {
                    ChronxError::UnknownAccount(a) => a == *target && !old(self).db.has_account(
                        target@,
                    ),
                    ChronxError::NoActiveRecovery(a) => a == *target && old(self).db.has_account(
                        target@,
                    ) && !old(self).db.account_of(target@).recovery_state.active,
                    ChronxError::RecoveryDelayNotElapsed => old(self).db.has_account(target@)
                        && old(self).db.account_of(target@).recovery_state.active && now < old(
                        self,
                    ).db.account_of(target@).recovery_state.recovery_execute_after.unwrap(),
                    ChronxError::RecoveryNotApproved => old(self).db.has_account(target@) && old(
                        self,
                    ).db.account_of(target@).recovery_state.active && now >= old(
                        self,
                    ).db.account_of(target@).recovery_state.recovery_execute_after.unwrap()
                        && old(self).db.account_of(target@).recovery_state.votes_approve@.len()
                        < crate::constants::RECOVERY_VERIFIER_THRESHOLD,
                    _ => false,
                },
            },
    {
        let ti = match self.db.find_account(target) {
            Some(i) => i,
            None => {
                return Err(ChronxError::UnknownAccount(*target));
            },
        };
        proof {
            self.db.lemma_account_index_unique(ti as int, target@);
        }
        if !self.db.accounts[ti].recovery_state.active {
            return Err(ChronxError::NoActiveRecovery(*target));
        }
        let execute_after = match self.db.accounts[ti].recovery_state.recovery_execute_after {
            Some(t) => t,
            None => i64::MAX,
        };
        if now < execute_after {
            return Err(ChronxError::RecoveryDelayNotElapsed);
        }
        let approvals = self.db.accounts[ti].recovery_state.votes_approve.len();
        if approvals < crate::constants::RECOVERY_VERIFIER_THRESHOLD as usize {
            return Err(ChronxError::RecoveryNotApproved);
        }

        let ghost db0 = self.db;
        let mut t_acc = placeholder_account();
        self.db.accounts.set_and_swap(ti, &mut t_acc);
        let old_rb = t_acc.recovery_state.recovery_bond;
        let old_cb = t_acc.recovery_state.challenge_bond;
        let new_key = match t_acc.recovery_state.proposed_owner_key {
            Some(k) => k,
            None => DilithiumPublicKey(Vec::new()),
        };
        t_acc.auth_policy = AuthPolicy::RecoveryEnabled {
            owner_key: new_key,
            recovery_config: crate::account::RecoveryConfig::default(),
        };
        t_acc.recovery_state = RecoveryState::default();
        let ghost targeted = t_acc;
        self.db.accounts.set(ti, t_acc);
        proof {
            assert(self.db.accounts@ =~= db0.accounts@.update(ti as int, targeted));
            lemma_sum_by_update(db0.accounts@, |a: Account| account_funds(a), ti as int, targeted);
            lemma_funds_bounds(db0);
        }
        self.db.forfeited = self.db.forfeited + old_rb;
        self.db.forfeited = self.db.forfeited + old_cb;
        Ok(())
    }

    /// Register the sender as a recovery verifier by staking collateral; the
    /// stake stays inside the balance but stops being spendable.
    pub fn apply_register_verifier(&mut self, sender: &AccountId, stake_amount: Balance) -> (r:
        Result<(), ChronxError>)
        requires
            old(self).inv(),
        ensures
            final(self).inv(),
            final(self).db.circulating() == old(self).db.circulating(),
            final(self).pow_difficulty == old(self).pow_difficulty,
            ids_nonces_preserved(old(self).db.accounts@, final(self).db.accounts@),
            locks_frozen(old(self).db.timelocks@, final(self).db.timelocks@),
            r is Ok <==> (stake_amount >= crate::constants::MIN_VERIFIER_STAKE_CHRONOS && old(
                self,
            ).db.has_account(sender@) && old(self).db.account_of(sender@).spec_spendable()
                >= stake_amount),
            match r {
                Ok(_) => {
                    let si = old(self).db.account_index(sender@);
                    let s0 = old(self).db.account_of(sender@);
                    &&& final(self).db.accounts@ == old(self).db.accounts@.update(
                        si,
                        Account {
                            verifier_stake: (s0.verifier_stake + stake_amount) as u128,
                            is_verifier: true,
                            ..s0
                        },
                    )
                    &&& unchanged_but_accounts(final(self).db, old(self).db)
                },
                Err(e) => final(self).db == old(self).db && match e {
                    ChronxError::VerifierStakeTooLow { min } => min
                        == crate::constants::MIN_VERIFIER_STAKE_CHRONOS && stake_amount < min,
                    ChronxError::UnknownAccount(a) => a == *sender && stake_amount
                        >= crate::constants::MIN_VERIFIER_STAKE_CHRONOS && !old(
                        self,
                    ).db.has_account(sender@),
                    ChronxError::InsufficientBalance { need, have } => stake_amount
                        >= crate::constants::MIN_VERIFIER_STAKE_CHRONOS && old(
                        self,
                    ).db.has_account(sender@) && need == stake_amount && have == old(
                        self,
                    ).db.account_of(sender@).spec_spendable() && have < stake_amount,
                    _ => false,
                },
            },
    {
        if stake_amount < crate::constants::MIN_VERIFIER_STAKE_CHRONOS {
            return Err(ChronxError::VerifierStakeTooLow {
                min: crate::constants::MIN_VERIFIER_STAKE_CHRONOS,
            });
        }
        let si = match self.db.find_account(sender) {
            Some(i) => i,
            None => {
                return Err(ChronxError::UnknownAccount(*sender));
            },
        };
        proof {
            self.db.lemma_account_index_unique(si as int, sender@);
        }
        let spendable = self.db.accounts[si].spendable_balance();
        if spendable < stake_amount {
            return Err(ChronxError::InsufficientBalance { need: stake_amount, have: spendable });
        }

        let ghost db0 = self.db;
        let mut s_acc = placeholder_account();
        self.db.accounts.set_and_swap(si, &mut s_acc);
        s_acc.verifier_stake = s_acc.verifier_stake + stake_amount;
        s_acc.is_verifier = true;
        let ghost staked = s_acc;
        self.db.accounts.set(si, s_acc);
        proof {
            assert(self.db.accounts@ =~= db0.accounts@.update(si as int, staked));
            lemma_sum_by_update(db0.accounts@, |a: Account| account_funds(a), si as int, staked);
        }
        Ok(())
    }

    /// Cast a verifier vote on an active recovery; votes are de-duplicated by
    /// the voting transaction's id across both lists.
    pub fn apply_vote_recovery(
        &mut self,
        sender: &AccountId,
        target: &AccountId,
        approve: bool,
        tx_id: &TxId,
    ) -> (r: Result<(), ChronxError>)
        requires
            old(self).inv(),
        ensures
            final(self).inv(),
            final(self).db.circulating() == old(self).db.circulating(),
            final(self).pow_difficulty == old(self).pow_difficulty,
            ids_nonces_preserved(old(self).db.accounts@, final(self).db.accounts@),
            locks_frozen(old(self).db.timelocks@, final(self).db.timelocks@),
            r is Ok <==> (old(self).db.has_account(sender@) && old(self).db.account_of(
                sender@,
            ).is_verifier && old(self).db.has_account(target@) && old(self).db.account_of(
                target@,
            ).recovery_state.active && !vote_recorded(
                old(self).db.account_of(target@).recovery_state,
                tx_id@,
            )),
            match r {
                Ok(_) => {
                    let ti = old(self).db.account_index(target@);
                    let t0 = old(self).db.account_of(target@);
                    let voted = Account {
                        recovery_state: RecoveryState {
                            votes_approve: t0.recovery_state.votes_approve,
                            votes_reject: t0.recovery_state.votes_reject,
                            ..t0.recovery_state
                        },
                        ..t0
                    };
                    &&& final(self).db.accounts@.len() == old(self).db.accounts@.len()
                    &&& forall|j: int|
                        0 <= j < old(self).db.accounts@.len() && j != ti
                            ==> final(self).db.accounts@[j] == old(self).db.accounts@[j]
                    &&& (approve ==> final(self).db.accounts@[ti].recovery_state.votes_approve@
                        == t0.recovery_state.votes_approve@.push(*tx_id)
                        && final(self).db.accounts@[ti].recovery_state.votes_reject@
                        == t0.recovery_state.votes_reject@)
                    &&& (!approve ==> final(self).db.accounts@[ti].recovery_state.votes_reject@
                        == t0.recovery_state.votes_reject@.push(*tx_id)
                        && final(self).db.accounts@[ti].recovery_state.votes_approve@
                        == t0.recovery_state.votes_approve@)
                    &&& final(self).db.accounts@[ti].recovery_state.active
                        == t0.recovery_state.active
                    &&& final(self).db.accounts@[ti].recovery_state.recovery_bond
                        == t0.recovery_state.recovery_bond
                    &&& final(self).db.accounts@[ti].recovery_state.challenge_bond
                        == t0.recovery_state.challenge_bond
                    &&& final(self).db.accounts@[ti].balance == t0.balance
                    &&& final(self).db.accounts@[ti].nonce == t0.nonce
                    &&& final(self).db.accounts@[ti].account_id == t0.account_id
                    &&& final(self).db.accounts@[ti].auth_policy == t0.auth_policy
                    &&& final(self).db.accounts@[ti].verifier_stake == t0.verifier_stake
                    &&& final(self).db.accounts@[ti].is_verifier == t0.is_verifier
                    &&& unchanged_but_accounts(final(self).db, old(self).db)
                },
                Err(e) => final(self).db == old(self).db && match e {
                    ChronxError::UnknownAccount(a) => (a == *sender && !old(self).db.has_account(
                        sender@,
                    )) || (a == *target && old(self).db.has_account(sender@) && old(
                        self,
                    ).db.account_of(sender@).is_verifier && !old(self).db.has_account(target@)),
                    ChronxError::VerifierNotRegistered(a) => a == *sender && old(
                        self,
                    ).db.has_account(sender@) && !old(self).db.account_of(sender@).is_verifier,
                    ChronxError::NoActiveRecovery(a) => a == *target && old(self).db.has_account(
                        sender@,
                    ) && old(self).db.account_of(sender@).is_verifier && old(self).db.has_account(
                        target@,
                    ) && !old(self).db.account_of(target@).recovery_state.active,
                    ChronxError::VerifierAlreadyVoted => old(self).db.has_account(sender@) && old(
                        self,
                    ).db.account_of(sender@).is_verifier && old(self).db.has_account(target@)
                        && old(self).db.account_of(target@).recovery_state.active
                        && vote_recorded(
                        old(self).db.account_of(target@).recovery_state,
                        tx_id@,
                    ),
                    _ => false,
                },
            },
    {
        let si = match self.db.find_account(sender) {
            Some(i) => i,
            None => {
                return Err(ChronxError::UnknownAccount(*sender));
            },
        };
        proof {
            self.db.lemma_account_index_unique(si as int, sender@);
        }
        if !self.db.accounts[si].is_verifier {
            return Err(ChronxError::VerifierNotRegistered(*sender));
        }
        let ti = match self.db.find_account(target) {
            Some(i) => i,
            None => {
                return Err(ChronxError::UnknownAccount(*target));
            },
        };
        proof {
            self.db.lemma_account_index_unique(ti as int, target@);
        }
        if !self.db.accounts[ti].recovery_state.active {
            return Err(ChronxError::NoActiveRecovery(*target));
        }
        if txid_vec_contains(&self.db.accounts[ti].recovery_state.votes_approve, tx_id)
            || txid_vec_contains(&self.db.accounts[ti].recovery_state.votes_reject, tx_id) {
            return Err(ChronxError::VerifierAlreadyVoted);
        }

        let ghost db0 = self.db;
        let mut t_acc = placeholder_account();
        self.db.accounts.set_and_swap(ti, &mut t_acc);
        if approve {
            t_acc.recovery_state.votes_approve.push(*tx_id);
        } else {
            t_acc.recovery_state.votes_reject.push(*tx_id);
        }
        let ghost voted = t_acc;
        self.db.accounts.set(ti, t_acc);
        proof {
            assert(self.db.accounts@ =~= db0.accounts@.update(ti as int, voted));
            lemma_sum_by_update(db0.accounts@, |a: Account| account_funds(a), ti as int, voted);
        }
        Ok(())
    }

    // ── Claims state machine ─────────────────────────────────────────────────

    /// Open the claims process on a matured policy lock: freeze the fiat
    /// value and lane from the oracle snapshot, or flag the lock Ambiguous
    /// when it carries no unique beneficiary identifier.
    pub fn apply_open_claim(&mut self, lock_id: &TxId, now: Timestamp) -> (r: Result<
        (),
        ChronxError,
    >)
        requires
            old(self).inv(),
        ensures
            final(self).inv(),
            final(self).db.circulating() == old(self).db.circulating(),
            final(self).pow_difficulty == old(self).pow_difficulty,
            ids_nonces_preserved(old(self).db.accounts@, final(self).db.accounts@),
            locks_frozen(old(self).db.timelocks@, final(self).db.timelocks@),
            r is Ok <==> (old(self).db.has_timelock(lock_id@) && old(self).db.timelock_of(
                lock_id@,
            ).claim_policy is Some && old(self).db.timelock_of(lock_id@).status is Pending && now
                >= old(self).db.timelock_of(lock_id@).unlock_at),
            match r {
                Ok(_) => {
                    let li = old(self).db.timelock_index(lock_id@);
                    let lock = old(self).db.timelock_of(lock_id@);
                    let ambiguous = lock.lock_version >= 1 && lock.org_identifier is None
                        && lock.beneficiary_anchor_commitment is None;
                    let v = spec_v_claim(old(self).db, lock.amount);
                    &&& (ambiguous ==> final(self).db.timelocks@ == old(
                        self,
                    ).db.timelocks@.update(
                        li,
                        TimeLockContract {
                            status: TimeLockStatus::Ambiguous { flagged_at: now },
                            ..lock
                        },
                    ) && final(self).db.claims == old(self).db.claims && final(self).db.forfeited
                        == old(self).db.forfeited)
                    &&& (!ambiguous ==> final(self).db.timelocks@ == old(
                        self,
                    ).db.timelocks@.update(
                        li,
                        TimeLockContract {
                            status: TimeLockStatus::ClaimOpen { opened_at: now },
                            ..lock
                        },
                    ) && final(self).db.has_claim(lock_id@) && {
                        let c = final(self).db.claim_of(lock_id@);
                        &&& c.lock_id == *lock_id
                        &&& c.lane == spec_lane_u8(v)
                        &&& c.v_claim_snapshot == v
                        &&& c.opened_at == now
                        &&& c.agent_id is None
                        &&& c.commit_bond == 0
                        &&& c.challenge_bond == 0
                        &&& c.commit_hash is None
                        &&& c.committed_at is None
                        &&& c.revealed_at is None
                        &&& c.challenger is None
                    })
                    &&& final(self).db.accounts == old(self).db.accounts
                    &&& final(self).db.vertices == old(self).db.vertices
                    &&& final(self).db.dag_tips == old(self).db.dag_tips
                    &&& final(self).db.providers == old(self).db.providers
                    &&& final(self).db.schemas == old(self).db.schemas
                    &&& final(self).db.oracle_snapshots == old(self).db.oracle_snapshots
                    &&& final(self).db.oracle_submissions == old(self).db.oracle_submissions
                    &&& final(self).db.next_schema_id_counter == old(
                        self,
                    ).db.next_schema_id_counter
                },
                Err(e) => final(self).db == old(self).db && match e {
                    ChronxError::TimeLockNotFound(t) => t == *lock_id && !old(
                        self,
                    ).db.has_timelock(lock_id@),
                    ChronxError::NoPolicyOnLock => old(self).db.has_timelock(lock_id@) && old(
                        self,
                    ).db.timelock_of(lock_id@).claim_policy is None,
                    ChronxError::InvalidClaimStateTransition => old(self).db.has_timelock(
                        lock_id@,
                    ) && old(self).db.timelock_of(lock_id@).claim_policy is Some && !(old(
                        self,
                    ).db.timelock_of(lock_id@).status is Pending),
                    ChronxError::TimeLockNotMatured { unlock_time } => old(self).db.has_timelock(
                        lock_id@,
                    ) && old(self).db.timelock_of(lock_id@).claim_policy is Some && old(
                        self,
                    ).db.timelock_of(lock_id@).status is Pending && now < old(
                        self,
                    ).db.timelock_of(lock_id@).unlock_at && unlock_time == old(
                        self,
                    ).db.timelock_of(lock_id@).unlock_at,
                    _ => false,
                },
            },
    {
        let li = match self.db.find_timelock(lock_id) {
            Some(i) => i,
            None => {
                return Err(ChronxError::TimeLockNotFound(*lock_id));
            },
        };
        proof {
            self.db.lemma_timelock_index_unique(li as int, lock_id@);
        }
        let has_policy = match self.db.timelocks[li].claim_policy {
            Some(_) => true,
            None => false,
        };
        if !has_policy {
            return Err(ChronxError::NoPolicyOnLock);
        }
        let is_pending = match self.db.timelocks[li].status {
            TimeLockStatus::Pending => true,
            _ => false,
        };
        if !is_pending {
            return Err(ChronxError::InvalidClaimStateTransition);
        }
        if now < self.db.timelocks[li].unlock_at {
            return Err(ChronxError::TimeLockNotMatured {
                unlock_time: self.db.timelocks[li].unlock_at,
            });
        }

        // Freeze the fiat value from the oracle snapshot; with no snapshot
        // the lane defaults to Elevated (safety first).
        let amount = self.db.timelocks[li].amount;
        proof {
            lemma_funds_bounds(self.db);
            assert(lock_funds(self.db.timelocks@[li as int]) == amount);
            assert(amount <= TOTAL_SUPPLY_CHRONOS);
        }
        let v_claim: u64 = match self.db.get_oracle_snapshot("KX/USD") {
            Some(snap) => {
                let kx: u128 = amount / crate::constants::CHRONOS_PER_KX;
                proof {
                    assert(kx <= 8_270_000_000);
                    vstd::arithmetic::mul::lemma_mul_upper_bound(
                        kx as int,
                        8_270_000_000,
                        snap.price_cents as int,
                        0xffff_ffff_ffff_ffff,
                    );
                }
                let prod: u128 = kx * (snap.price_cents as u128);
                if prod > u64::MAX as u128 {
                    u64::MAX
                } else {
                    prod as u64
                }
            },
            None => u64::MAX,
        };
        proof {
            assert(v_claim == spec_v_claim(self.db, amount)) by {
                if self.db.has_snapshot("KX/USD"@) {
                    let p = self.db.snapshot_of("KX/USD"@);
                    vstd::arithmetic::mul::lemma_mul_nonnegative(
                        amount as int / crate::constants::CHRONOS_PER_KX as int,
                        p.price_cents as int,
                    );
                }
            }
        }
        let thresholds = crate::claims::LaneThresholds::default_thresholds();
        let lane = thresholds.lane_for(v_claim);
        let lane_u8 = lane.to_u8();
        proof {
            assert(lane_u8 == spec_lane_u8(v_claim));
        }

        let is_ambiguous = {
            let v1 = self.db.timelocks[li].lock_version >= 1;
            let no_org = match self.db.timelocks[li].org_identifier {
                Some(_) => false,
                None => true,
            };
            let no_anchor = match self.db.timelocks[li].beneficiary_anchor_commitment {
                Some(_) => false,
                None => true,
            };
            v1 && no_org && no_anchor
        };

        let ghost db0 = self.db;
        let mut lock = placeholder_lock(lock_id);
        self.db.timelocks.set_and_swap(li, &mut lock);
        if is_ambiguous {
            lock.status = TimeLockStatus::Ambiguous { flagged_at: now };
        } else {
            lock.status = TimeLockStatus::ClaimOpen { opened_at: now };
        }
        let ghost lock_g = lock;
        self.db.timelocks.set(li, lock);
        proof {
            assert(self.db.timelocks@ =~= db0.timelocks@.update(li as int, lock_g));
            lemma_sum_by_update(
                db0.timelocks@,
                |l: TimeLockContract| lock_funds(l),
                li as int,
                lock_g,
            );
        }

        if !is_ambiguous {
            let cs = crate::claims::ClaimState::new(*lock_id, lane_u8, v_claim, now);
            let ghost db1 = self.db;
            let ghost cs_g = cs;
            let ghost had = self.db.has_claim(lock_id@);
            let ghost old_funds: int = if self.db.has_claim(lock_id@) {
                claim_funds(self.db.claim_of(lock_id@))
            } else {
                0
            };
            proof {
                if db1.has_claim(lock_id@) {
                    let ci = db1.claim_index(lock_id@);
                    lemma_sum_by_update(
                        db1.claims@,
                        |c: crate::claims::ClaimState| claim_funds(c),
                        ci,
                        cs_g,
                    );
                    lemma_funds_bounds(db1);
                } else {
                    lemma_sum_by_push(
                        db1.claims@,
                        |c: crate::claims::ClaimState| claim_funds(c),
                        cs_g,
                    );
                }
            }
            // A stale claim row under this key would hold bonds that are no
            // longer reachable; they are forfeited when overwritten.
            let stale: u128 = match self.db.get_claim(lock_id) {
                Some(c) => {
                    proof {
                        lemma_funds_bounds(db1);
                        let fc = |cc: crate::claims::ClaimState| claim_funds(cc);
                        assert(fc(db1.claims@[db1.claim_index(lock_id@)]) <= db1.circulating());
                    }
                    let b = c.commit_bond + c.challenge_bond;
                    b
                },
                None => 0,
            };
            self.db.put_claim(cs);
            proof {
                lemma_funds_bounds(db1);
                if had {
                    let ci = db1.claim_index(lock_id@);
                    self.db.lemma_claim_index_unique(ci, lock_id@);
                } else {
                    self.db.lemma_claim_index_unique(self.db.claims@.len() - 1, lock_id@);
                }
            }
            self.db.forfeited = self.db.forfeited + stale;
        }
        Ok(())
    }

    /// Commit a claim: the agent posts a hash of the payload and a bond of at
    /// least the lane minimum.
    pub fn apply_submit_claim_commit(
        &mut self,
        sender: &AccountId,
        lock_id: &TxId,
        commit_hash: &[u8; 32],
        bond_amount: Balance,
        now: Timestamp,
    ) -> (r: Result<(), ChronxError>)
        requires
            old(self).inv(),
        ensures
            final(self).inv(),
            final(self).db.circulating() == old(self).db.circulating(),
            final(self).pow_difficulty == old(self).pow_difficulty,
            ids_nonces_preserved(old(self).db.accounts@, final(self).db.accounts@),
            locks_frozen(old(self).db.timelocks@, final(self).db.timelocks@),
            r is Ok <==> (old(self).db.has_timelock(lock_id@) && old(self).db.timelock_of(
                lock_id@,
            ).status is ClaimOpen && old(self).db.has_claim(lock_id@) && bond_amount
                >= spec_default_min_bond(old(self).db.claim_of(lock_id@).lane) && old(
                self,
            ).db.has_account(sender@) && old(self).db.account_of(sender@).spec_spendable()
                >= bond_amount),
            match r {
                Ok(_) => {
                    let si = old(self).db.account_index(sender@);
                    let li = old(self).db.timelock_index(lock_id@);
                    let lock = old(self).db.timelock_of(lock_id@);
                    let c0 = old(self).db.claim_of(lock_id@);
                    let cfin = final(self).db.claim_of(lock_id@);
                    &&& final(self).db.accounts@ == old(self).db.accounts@.update(
                        si,
                        Account {
                            balance: (old(self).db.account_of(sender@).balance
                                - bond_amount) as u128,
                            ..old(self).db.account_of(sender@)
                        },
                    )
                    &&& final(self).db.timelocks@ == old(self).db.timelocks@.update(
                        li,
                        TimeLockContract {
                            status: TimeLockStatus::ClaimCommitted { committed_at: now },
                            ..lock
                        },
                    )
                    &&& final(self).db.has_claim(lock_id@)
                    &&& cfin.agent_id == Some(*sender)
                    &&& cfin.commit_hash == Some(*commit_hash)
                    &&& cfin.commit_bond == bond_amount
                    &&& cfin.committed_at == Some(now)
                    &&& cfin.lane == c0.lane
                    &&& cfin.v_claim_snapshot == c0.v_claim_snapshot
                    &&& cfin.opened_at == c0.opened_at
                    &&& cfin.challenge_bond == c0.challenge_bond
                    &&& cfin.lock_id == c0.lock_id
                    &&& final(self).db.claims@.len() == old(self).db.claims@.len()
                    &&& final(self).db.forfeited == old(self).db.forfeited + c0.commit_bond
                    &&& final(self).db.vertices == old(self).db.vertices
                    &&& final(self).db.dag_tips == old(self).db.dag_tips
                    &&& final(self).db.providers == old(self).db.providers
                    &&& final(self).db.schemas == old(self).db.schemas
                    &&& final(self).db.oracle_snapshots == old(self).db.oracle_snapshots
                    &&& final(self).db.oracle_submissions == old(self).db.oracle_submissions
                    &&& final(self).db.next_schema_id_counter == old(
                        self,
                    ).db.next_schema_id_counter
                },
                Err(e) => final(self).db == old(self).db && match e {
                    ChronxError::TimeLockNotFound(t) => t == *lock_id && !old(
                        self,
                    ).db.has_timelock(lock_id@),
                    ChronxError::InvalidClaimStateTransition => old(self).db.has_timelock(
                        lock_id@,
                    ) && !(old(self).db.timelock_of(lock_id@).status is ClaimOpen),
                    ChronxError::ClaimNotFound(t) => t == *lock_id && old(self).db.has_timelock(
                        lock_id@,
                    ) && old(self).db.timelock_of(lock_id@).status is ClaimOpen && !old(
                        self,
                    ).db.has_claim(lock_id@),
                    ChronxError::ClaimBondTooLow { min } => old(self).db.has_timelock(lock_id@)
                        && old(self).db.timelock_of(lock_id@).status is ClaimOpen && old(
                        self,
                    ).db.has_claim(lock_id@) && min == spec_default_min_bond(
                        old(self).db.claim_of(lock_id@).lane,
                    ) && bond_amount < min,
                    ChronxError::UnknownAccount(a) => a == *sender && old(self).db.has_timelock(
                        lock_id@,
                    ) && old(self).db.timelock_of(lock_id@).status is ClaimOpen && old(
                        self,
                    ).db.has_claim(lock_id@) && bond_amount >= spec_default_min_bond(
                        old(self).db.claim_of(lock_id@).lane,
                    ) && !old(self).db.has_account(sender@),
                    ChronxError::InsufficientBalance { need, have } => old(self).db.has_timelock(
                        lock_id@,
                    ) && old(self).db.timelock_of(lock_id@).status is ClaimOpen && old(
                        self,
                    ).db.has_claim(lock_id@) && bond_amount >= spec_default_min_bond(
                        old(self).db.claim_of(lock_id@).lane,
                    ) && old(self).db.has_account(sender@) && need == bond_amount && have == old(
                        self,
                    ).db.account_of(sender@).spec_spendable() && have < bond_amount,
                    _ => false,
                },
            },
    {
        let li = match self.db.find_timelock(lock_id) {
            Some(i) => i,
            None => {
                return Err(ChronxError::TimeLockNotFound(*lock_id));
            },
        };
        proof {
            self.db.lemma_timelock_index_unique(li as int, lock_id@);
        }
        let is_open = match self.db.timelocks[li].status {
            TimeLockStatus::ClaimOpen { .. } => true,
            _ => false,
        };
        if !is_open {
            return Err(ChronxError::InvalidClaimStateTransition);
        }
        let ci = match self.db.find_claim(lock_id) {
            Some(i) => i,
            None => {
                return Err(ChronxError::ClaimNotFound(*lock_id));
            },
        };
        proof {
            self.db.lemma_claim_index_unique(ci as int, lock_id@);
        }
        let lane = crate::claims::ClaimLane::from_u8(self.db.claims[ci].lane);
        let thresholds = crate::claims::LaneThresholds::default_thresholds();
        let min_bond = thresholds.min_bond(lane);
        proof {
            assert(min_bond == spec_default_min_bond(self.db.claims@[ci as int].lane));
        }
        if bond_amount < min_bond {
            return Err(ChronxError::ClaimBondTooLow { min: min_bond });
        }
        let si = match self.db.find_account(sender) {
            Some(i) => i,
            None => {
                return Err(ChronxError::UnknownAccount(*sender));
            },
        };
        proof {
            self.db.lemma_account_index_unique(si as int, sender@);
        }
        let spendable = self.db.accounts[si].spendable_balance();
        if spendable < bond_amount {
            return Err(ChronxError::InsufficientBalance { need: bond_amount, have: spendable });
        }

        let ghost db0 = self.db;
        proof {
            lemma_funds_bounds(db0);
        }

        // Debit the agent.
        let mut s_acc = placeholder_account();
        self.db.accounts.set_and_swap(si, &mut s_acc);
        s_acc.balance = s_acc.balance - bond_amount;
        let ghost debited = s_acc;
        self.db.accounts.set(si, s_acc);
        proof {
            assert(self.db.accounts@ =~= db0.accounts@.update(si as int, debited));
            lemma_sum_by_update(db0.accounts@, |a: Account| account_funds(a), si as int, debited);
        }

        // Record the commitment; a stale commit bond is forfeited.
        let ghost db1 = self.db;
        let mut cs = placeholder_claim(lock_id);
        self.db.claims.set_and_swap(ci, &mut cs);
        let old_cb = cs.commit_bond;
        cs.agent_id = Some(*sender);
        cs.commit_hash = Some(*commit_hash);
        cs.commit_bond = bond_amount;
        cs.committed_at = Some(now);
        let ghost committed = cs;
        self.db.claims.set(ci, cs);
        proof {
            assert(self.db.claims@ =~= db1.claims@.update(ci as int, committed));
            lemma_sum_by_update(
                db1.claims@,
                |c: crate::claims::ClaimState| claim_funds(c),
                ci as int,
                committed,
            );
        }
        self.db.forfeited = self.db.forfeited + old_cb;

        // Advance the lock.
        let ghost db2 = self.db;
        let mut lock = placeholder_lock(lock_id);
        self.db.timelocks.set_and_swap(li, &mut lock);
        lock.status = TimeLockStatus::ClaimCommitted { committed_at: now };
        let ghost lock_g = lock;
        self.db.timelocks.set(li, lock);
        proof {
            assert(self.db.timelocks@ =~= db2.timelocks@.update(li as int, lock_g));
            lemma_sum_by_update(
                db2.timelocks@,
                |l: TimeLockContract| lock_funds(l),
                li as int,
                lock_g,
            );
            self.db.lemma_claim_index_unique(ci as int, lock_id@);
        }
        Ok(())
    }

    /// Reveal a committed claim. A reveal after the window, or with a payload
    /// that does not hash to the commitment, is a successful slashing
    /// transition, not an error: the bond and the locked funds are forfeited.
    pub fn apply_reveal_claim(
        &mut self,
        sender: &AccountId,
        lock_id: &TxId,
        payload: &Vec<u8>,
        salt: &[u8; 32],
        certificates: &Vec<crate::claims::Certificate>,
        now: Timestamp,
    ) -> (r: Result<(), ChronxError>)
        requires
            old(self).inv(),
            0 <= now < 0x4000_0000_0000_0000,
        ensures
            final(self).inv(),
            final(self).db.circulating() == old(self).db.circulating(),
            final(self).pow_difficulty == old(self).pow_difficulty,
            ids_nonces_preserved(old(self).db.accounts@, final(self).db.accounts@),
            locks_frozen(old(self).db.timelocks@, final(self).db.timelocks@),
            r is Ok <==> (old(self).db.has_timelock(lock_id@) && (old(self).db.timelock_of(
                lock_id@,
            ).status is ClaimCommitted) && old(self).db.has_claim(lock_id@) && old(
                self,
            ).db.claim_of(lock_id@).agent_id == Some(*sender) && (spec_in_reveal_window(
                old(self).db,
                lock_id@,
                now,
            ) ==> old(self).db.claim_of(lock_id@).commit_hash is Some)),
            match r {
                Ok(_) => {
                    let li = old(self).db.timelock_index(lock_id@);
                    let lock = old(self).db.timelock_of(lock_id@);
                    let c0 = old(self).db.claim_of(lock_id@);
                    let cfin = final(self).db.claim_of(lock_id@);
                    let in_window = spec_in_reveal_window(old(self).db, lock_id@, now);
                    let hash_ok = c0.commit_hash matches Some(h) && h@ == crate::crypto::blake3_of(
                        payload@ + salt@,
                    );
                    &&& (!in_window ==> final(self).db.timelocks@ == old(
                        self,
                    ).db.timelocks@.update(
                        li,
                        TimeLockContract {
                            status: TimeLockStatus::ClaimSlashed {
                                reason: crate::timelock::SlashReason::RevealTimeout,
                                slashed_at: now,
                            },
                            ..lock
                        },
                    ) && cfin.commit_bond == 0 && final(self).db.forfeited == old(
                        self,
                    ).db.forfeited + c0.commit_bond + lock.amount)
                    &&& (in_window && !hash_ok ==> final(self).db.timelocks@ == old(
                        self,
                    ).db.timelocks@.update(
                        li,
                        TimeLockContract {
                            status: TimeLockStatus::ClaimSlashed {
                                reason: crate::timelock::SlashReason::RevealHashMismatch,
                                slashed_at: now,
                            },
                            ..lock
                        },
                    ) && cfin.commit_bond == 0 && final(self).db.forfeited == old(
                        self,
                    ).db.forfeited + c0.commit_bond + lock.amount)
                    &&& (in_window && hash_ok ==> final(self).db.timelocks@ == old(
                        self,
                    ).db.timelocks@.update(
                        li,
                        TimeLockContract {
                            status: TimeLockStatus::ClaimRevealed { revealed_at: now },
                            ..lock
                        },
                    ) && (cfin.revealed_payload matches Some(pl) && pl@ == payload@)
                        && cfin.revealed_salt == Some(*salt) && cfin.revealed_at == Some(now)
                        && crate::claims::cert_seq_eqv(cfin.certificates@, certificates@)
                        && cfin.commit_bond == c0.commit_bond && final(self).db.forfeited == old(
                        self,
                    ).db.forfeited)
                    &&& cfin.agent_id == c0.agent_id
                    &&& cfin.lane == c0.lane
                    &&& cfin.challenge_bond == c0.challenge_bond
                    &&& final(self).db.claims@.len() == old(self).db.claims@.len()
                    &&& final(self).db.accounts == old(self).db.accounts
                    &&& final(self).db.vertices == old(self).db.vertices
                    &&& final(self).db.dag_tips == old(self).db.dag_tips
                    &&& final(self).db.providers == old(self).db.providers
                    &&& final(self).db.schemas == old(self).db.schemas
                    &&& final(self).db.oracle_snapshots == old(self).db.oracle_snapshots
                    &&& final(self).db.oracle_submissions == old(self).db.oracle_submissions
                    &&& final(self).db.next_schema_id_counter == old(
                        self,
                    ).db.next_schema_id_counter
                },
                Err(e) => final(self).db == old(self).db && match e {
                    ChronxError::TimeLockNotFound(t) => t == *lock_id && !old(
                        self,
                    ).db.has_timelock(lock_id@),
                    ChronxError::InvalidClaimStateTransition => old(self).db.has_timelock(
                        lock_id@,
                    ) && (!(old(self).db.timelock_of(lock_id@)
                        .status is ClaimCommitted) || (old(self).db.has_claim(lock_id@) && old(
                        self,
                    ).db.claim_of(lock_id@).agent_id == Some(*sender) && spec_in_reveal_window(
                        old(self).db,
                        lock_id@,
                        now,
                    ) && old(self).db.claim_of(lock_id@).commit_hash is None)),
                    ChronxError::ClaimNotFound(t) => t == *lock_id && old(self).db.has_timelock(
                        lock_id@,
                    ) && old(self).db.timelock_of(lock_id@).status is ClaimCommitted && !old(
                        self,
                    ).db.has_claim(lock_id@),
                    ChronxError::AuthPolicyViolation => old(self).db.has_timelock(lock_id@)
                        && old(self).db.timelock_of(lock_id@).status is ClaimCommitted && old(
                        self,
                    ).db.has_claim(lock_id@) && old(self).db.claim_of(lock_id@).agent_id != Some(
                        *sender,
                    ),
                    _ => false,
                },
            },
    {
        let li = match self.db.find_timelock(lock_id) {
            Some(i) => i,
            None => {
                return Err(ChronxError::TimeLockNotFound(*lock_id));
            },
        };
        proof {
            self.db.lemma_timelock_index_unique(li as int, lock_id@);
        }
        let committed_at = match self.db.timelocks[li].status {
            TimeLockStatus::ClaimCommitted { committed_at } => committed_at,
            _ => {
                return Err(ChronxError::InvalidClaimStateTransition);
            },
        };
        let ci = match self.db.find_claim(lock_id) {
            Some(i) => i,
            None => {
                return Err(ChronxError::ClaimNotFound(*lock_id));
            },
        };
        proof {
            self.db.lemma_claim_index_unique(ci as int, lock_id@);
        }
        let agent_matches = match &self.db.claims[ci].agent_id {
            Some(a) => a.same(sender),
            None => false,
        };
        if !agent_matches {
            return Err(ChronxError::AuthPolicyViolation);
        }
        proof {
            assert(self.db.claims@[ci as int].agent_id matches Some(a) && a@ == sender@);
            assert(self.db.claims@[ci as int].agent_id == Some(*sender)) by {
                let a = self.db.claims@[ci as int].agent_id.unwrap();
                assert(a@ == sender@);
                assert(a.0@ == sender.0@);
                assert(a.0 =~= sender.0);
            }
        }

        let lane = crate::claims::ClaimLane::from_u8(self.db.claims[ci].lane);
        let thresholds = crate::claims::LaneThresholds::default_thresholds();
        let window = thresholds.reveal_window(lane);
        let expired: bool = if committed_at > now {
            false
        } else {
            now > committed_at + window
        };

        proof {
            assert(window == spec_default_reveal_window(self.db.claims@[ci as int].lane));
        }
        if expired {
            // Slash: the agent failed to reveal in time. This is a valid
            // state transition, committed as success.
            self.slash_lock(li, ci, crate::timelock::SlashReason::RevealTimeout, now);
            proof {
                self.db.lemma_claim_index_unique(ci as int, lock_id@);
            }
            return Ok(());
        }

        let stored_hash = match self.db.claims[ci].commit_hash {
            Some(h) => h,
            None => {
                return Err(ChronxError::InvalidClaimStateTransition);
            },
        };
        let mut input: Vec<u8> = Vec::new();
        crate::codec::append_bytes(&mut input, payload.as_slice());
        crate::codec::append_bytes(&mut input, salt);
        proof {
            assert(input@ =~= payload@ + salt@);
        }
        let expected_hash = crate::crypto::blake3_hash(input.as_slice());
        if !crate::types::bytes32_eq(&expected_hash, &stored_hash) {
            // Slash: the revealed payload does not match the commitment.
            self.slash_lock(li, ci, crate::timelock::SlashReason::RevealHashMismatch, now);
            proof {
                self.db.lemma_claim_index_unique(ci as int, lock_id@);
            }
            return Ok(());
        }

        // Honest reveal: record it and advance the lock.
        let ghost db0 = self.db;
        let mut cs = placeholder_claim(lock_id);
        self.db.claims.set_and_swap(ci, &mut cs);
        cs.revealed_payload = Some(crate::types::clone_bytes(payload));
        cs.revealed_salt = Some(*salt);
        cs.certificates = crate::claims::clone_cert_vec(certificates);
        cs.revealed_at = Some(now);
        let ghost revealed = cs;
        self.db.claims.set(ci, cs);
        proof {
            assert(self.db.claims@ =~= db0.claims@.update(ci as int, revealed));
            lemma_sum_by_update(
                db0.claims@,
                |c: crate::claims::ClaimState| claim_funds(c),
                ci as int,
                revealed,
            );
        }
        let ghost db1 = self.db;
        let mut lock = placeholder_lock(lock_id);
        self.db.timelocks.set_and_swap(li, &mut lock);
        lock.status = TimeLockStatus::ClaimRevealed { revealed_at: now };
        let ghost lock_g = lock;
        self.db.timelocks.set(li, lock);
        proof {
            assert(self.db.timelocks@ =~= db1.timelocks@.update(li as int, lock_g));
            lemma_sum_by_update(
                db1.timelocks@,
                |l: TimeLockContract| lock_funds(l),
                li as int,
                lock_g,
            );
            self.db.lemma_claim_index_unique(ci as int, lock_id@);
        }
        Ok(())
    }

    /// Slash a committed claim: zero the commit bond, mark the lock slashed,
    /// and forfeit the bond together with the locked amount.
    fn slash_lock(
        &mut self,
        li: usize,
        ci: usize,
        reason: crate::timelock::SlashReason,
        now: Timestamp,
    )
        requires
            old(self).inv(),
            li < old(self).db.timelocks@.len(),
            ci < old(self).db.claims@.len(),
            !old(self).db.timelocks@[li as int].status.spec_is_terminal(),
        ensures
            final(self).inv(),
            final(self).db.circulating() == old(self).db.circulating(),
            final(self).pow_difficulty == old(self).pow_difficulty,
            ids_nonces_preserved(old(self).db.accounts@, final(self).db.accounts@),
            locks_frozen(old(self).db.timelocks@, final(self).db.timelocks@),
            final(self).db.timelocks@ == old(self).db.timelocks@.update(
                li as int,
                TimeLockContract {
                    status: TimeLockStatus::ClaimSlashed { reason, slashed_at: now },
                    ..old(self).db.timelocks@[li as int]
                },
            ),
            final(self).db.claims@ == old(self).db.claims@.update(
                ci as int,
                crate::claims::ClaimState {
                    commit_bond: 0,
                    ..old(self).db.claims@[ci as int]
                },
            ),
            final(self).db.forfeited == old(self).db.forfeited + old(
                self,
            ).db.claims@[ci as int].commit_bond + old(self).db.timelocks@[li as int].amount,
            final(self).db.accounts == old(self).db.accounts,
            final(self).db.vertices == old(self).db.vertices,
            final(self).db.dag_tips == old(self).db.dag_tips,
            final(self).db.providers == old(self).db.providers,
            final(self).db.schemas == old(self).db.schemas,
            final(self).db.oracle_snapshots == old(self).db.oracle_snapshots,
            final(self).db.oracle_submissions == old(self).db.oracle_submissions,
            final(self).db.next_schema_id_counter == old(self).db.next_schema_id_counter,
    {
        let ghost db0 = self.db;
        proof {
            lemma_funds_bounds(db0);
        }
        let mut cs = placeholder_claim(&self.db.timelocks[li].id);
        self.db.claims.set_and_swap(ci, &mut cs);
        let bond = cs.commit_bond;
        cs.commit_bond = 0;
        let ghost slashed_claim = cs;
        self.db.claims.set(ci, cs);
        proof {
            assert(self.db.claims@ =~= db0.claims@.update(ci as int, slashed_claim));
            lemma_sum_by_update(
                db0.claims@,
                |c: crate::claims::ClaimState| claim_funds(c),
                ci as int,
                slashed_claim,
            );
        }
        let ghost db1 = self.db;
        let lock_key = self.db.timelocks[li].id;
        let amount = self.db.timelocks[li].amount;
        let mut lock = placeholder_lock(&lock_key);
        self.db.timelocks.set_and_swap(li, &mut lock);
        lock.status = TimeLockStatus::ClaimSlashed { reason, slashed_at: now };
        let ghost lock_g = lock;
        self.db.timelocks.set(li, lock);
        proof {
            assert(self.db.timelocks@ =~= db1.timelocks@.update(li as int, lock_g));
            lemma_sum_by_update(
                db1.timelocks@,
                |l: TimeLockContract| lock_funds(l),
                li as int,
                lock_g,
            );
        }
        self.db.forfeited = self.db.forfeited + bond;
        self.db.forfeited = self.db.forfeited + amount;
    }

    /// Challenge a revealed claim within the challenge window; the
    /// challenger must at least match the agent's bond.
    pub fn apply_challenge_claim_reveal(
        &mut self,
        sender: &AccountId,
        lock_id: &TxId,
        evidence_hash: &[u8; 32],
        bond_amount: Balance,
        now: Timestamp,
    ) -> (r: Result<(), ChronxError>)
        requires
            old(self).inv(),
            0 <= now < 0x4000_0000_0000_0000,
        ensures
            final(self).inv(),
            final(self).db.circulating() == old(self).db.circulating(),
            final(self).pow_difficulty == old(self).pow_difficulty,
            ids_nonces_preserved(old(self).db.accounts@, final(self).db.accounts@),
            locks_frozen(old(self).db.timelocks@, final(self).db.timelocks@),
            r is Ok <==> (old(self).db.has_timelock(lock_id@) && (old(self).db.timelock_of(
                lock_id@,
            ).status is ClaimRevealed) && old(self).db.has_claim(lock_id@)
                && spec_in_challenge_window(old(self).db, lock_id@, now) && bond_amount >= old(
                self,
            ).db.claim_of(lock_id@).commit_bond && old(self).db.has_account(sender@) && old(
                self,
            ).db.account_of(sender@).spec_spendable() >= bond_amount),
            match r {
                Ok(_) => {
                    let si = old(self).db.account_index(sender@);
                    let li = old(self).db.timelock_index(lock_id@);
                    let lock = old(self).db.timelock_of(lock_id@);
                    let c0 = old(self).db.claim_of(lock_id@);
                    let cfin = final(self).db.claim_of(lock_id@);
                    &&& final(self).db.accounts@ == old(self).db.accounts@.update(
                        si,
                        Account {
                            balance: (old(self).db.account_of(sender@).balance
                                - bond_amount) as u128,
                            ..old(self).db.account_of(sender@)
                        },
                    )
                    &&& final(self).db.timelocks@ == old(self).db.timelocks@.update(
                        li,
                        TimeLockContract {
                            status: TimeLockStatus::ClaimChallenged { challenged_at: now },
                            ..lock
                        },
                    )
                    &&& final(self).db.has_claim(lock_id@)
                    &&& cfin.challenger == Some(*sender)
                    &&& cfin.challenge_bond == bond_amount
                    &&& cfin.challenge_evidence_hash == Some(*evidence_hash)
                    &&& cfin.challenged_at == Some(now)
                    &&& cfin.agent_id == c0.agent_id
                    &&& cfin.commit_bond == c0.commit_bond
                    &&& cfin.lane == c0.lane
                    &&& final(self).db.claims@.len() == old(self).db.claims@.len()
                    &&& final(self).db.forfeited == old(self).db.forfeited + c0.challenge_bond
                    &&& final(self).db.vertices == old(self).db.vertices
                    &&& final(self).db.dag_tips == old(self).db.dag_tips
                    &&& final(self).db.providers == old(self).db.providers
                    &&& final(self).db.schemas == old(self).db.schemas
                    &&& final(self).db.oracle_snapshots == old(self).db.oracle_snapshots
                    &&& final(self).db.oracle_submissions == old(self).db.oracle_submissions
                    &&& final(self).db.next_schema_id_counter == old(
                        self,
                    ).db.next_schema_id_counter
                },
                Err(e) => final(self).db == old(self).db && match e {
                    ChronxError::TimeLockNotFound(t) => t == *lock_id && !old(
                        self,
                    ).db.has_timelock(lock_id@),
                    ChronxError::InvalidClaimStateTransition => old(self).db.has_timelock(
                        lock_id@,
                    ) && !(old(self).db.timelock_of(lock_id@).status is ClaimRevealed),
                    ChronxError::ClaimNotFound(t) => t == *lock_id && old(self).db.has_timelock(
                        lock_id@,
                    ) && (old(self).db.timelock_of(lock_id@).status is ClaimRevealed) && !old(
                        self,
                    ).db.has_claim(lock_id@),
                    ChronxError::ClaimChallengeWindowExpired => old(self).db.has_timelock(
                        lock_id@,
                    ) && (old(self).db.timelock_of(lock_id@).status is ClaimRevealed) && old(
                        self,
                    ).db.has_claim(lock_id@) && !spec_in_challenge_window(
                        old(self).db,
                        lock_id@,
                        now,
                    ),
                    ChronxError::ClaimBondTooLow { min } => old(self).db.has_timelock(lock_id@)
                        && (old(self).db.timelock_of(lock_id@).status is ClaimRevealed) && old(
                        self,
                    ).db.has_claim(lock_id@) && spec_in_challenge_window(
                        old(self).db,
                        lock_id@,
                        now,
                    ) && min == old(self).db.claim_of(lock_id@).commit_bond && bond_amount < min,
                    ChronxError::UnknownAccount(a) => a == *sender && old(self).db.has_timelock(
                        lock_id@,
                    ) && (old(self).db.timelock_of(lock_id@).status is ClaimRevealed) && old(
                        self,
                    ).db.has_claim(lock_id@) && spec_in_challenge_window(
                        old(self).db,
                        lock_id@,
                        now,
                    ) && bond_amount >= old(self).db.claim_of(lock_id@).commit_bond && !old(
                        self,
                    ).db.has_account(sender@),
                    ChronxError::InsufficientBalance { need, have } => old(self).db.has_timelock(
                        lock_id@,
                    ) && (old(self).db.timelock_of(lock_id@).status is ClaimRevealed) && old(
                        self,
                    ).db.has_claim(lock_id@) && spec_in_challenge_window(
                        old(self).db,
                        lock_id@,
                        now,
                    ) && bond_amount >= old(self).db.claim_of(lock_id@).commit_bond && old(
                        self,
                    ).db.has_account(sender@) && need == bond_amount && have == old(
                        self,
                    ).db.account_of(sender@).spec_spendable() && have < bond_amount,
                    _ => false,
                },
            },
    {
        let li = match self.db.find_timelock(lock_id) {
            Some(i) => i,
            None => {
                return Err(ChronxError::TimeLockNotFound(*lock_id));
            },
        };
        proof {
            self.db.lemma_timelock_index_unique(li as int, lock_id@);
        }
        let revealed_at = match self.db.timelocks[li].status {
            TimeLockStatus::ClaimRevealed { revealed_at } => revealed_at,
            _ => {
                return Err(ChronxError::InvalidClaimStateTransition);
            },
        };
        let ci = match self.db.find_claim(lock_id) {
            Some(i) => i,
            None => {
                return Err(ChronxError::ClaimNotFound(*lock_id));
            },
        };
        proof {
            self.db.lemma_claim_index_unique(ci as int, lock_id@);
        }
        let lane = crate::claims::ClaimLane::from_u8(self.db.claims[ci].lane);
        let thresholds = crate::claims::LaneThresholds::default_thresholds();
        let window = thresholds.challenge_window(lane);
        proof {
            assert(window == spec_default_challenge_window(self.db.claims@[ci as int].lane));
        }
        let expired: bool = if revealed_at > now {
            false
        } else {
            now > revealed_at + window
        };
        if expired {
            return Err(ChronxError::ClaimChallengeWindowExpired);
        }
        let commit_bond = self.db.claims[ci].commit_bond;
        if bond_amount < commit_bond {
            return Err(ChronxError::ClaimBondTooLow { min: commit_bond });
        }
        let si = match self.db.find_account(sender) {
            Some(i) => i,
            None => {
                return Err(ChronxError::UnknownAccount(*sender));
            },
        };
        proof {
            self.db.lemma_account_index_unique(si as int, sender@);
        }
        let spendable = self.db.accounts[si].spendable_balance();
        if spendable < bond_amount {
            return Err(ChronxError::InsufficientBalance { need: bond_amount, have: spendable });
        }

        let ghost db0 = self.db;
        proof {
            lemma_funds_bounds(db0);
        }

        // Debit the challenger.
        let mut s_acc = placeholder_account();
        self.db.accounts.set_and_swap(si, &mut s_acc);
        s_acc.balance = s_acc.balance - bond_amount;
        let ghost debited = s_acc;
        self.db.accounts.set(si, s_acc);
        proof {
            assert(self.db.accounts@ =~= db0.accounts@.update(si as int, debited));
            lemma_sum_by_update(db0.accounts@, |a: Account| account_funds(a), si as int, debited);
        }

        // Record the challenge; a stale challenge bond is forfeited.
        let ghost db1 = self.db;
        let mut cs = placeholder_claim(lock_id);
        self.db.claims.set_and_swap(ci, &mut cs);
        let old_cb = cs.challenge_bond;
        cs.challenger = Some(*sender);
        cs.challenge_bond = bond_amount;
        cs.challenge_evidence_hash = Some(*evidence_hash);
        cs.challenged_at = Some(now);
        let ghost challenged = cs;
        self.db.claims.set(ci, cs);
        proof {
            assert(self.db.claims@ =~= db1.claims@.update(ci as int, challenged));
            lemma_sum_by_update(
                db1.claims@,
                |c: crate::claims::ClaimState| claim_funds(c),
                ci as int,
                challenged,
            );
        }
        self.db.forfeited = self.db.forfeited + old_cb;

        // Advance the lock.
        let ghost db2 = self.db;
        let mut lock = placeholder_lock(lock_id);
        self.db.timelocks.set_and_swap(li, &mut lock);
        lock.status = TimeLockStatus::ClaimChallenged { challenged_at: now };
        let ghost lock_g = lock;
        self.db.timelocks.set(li, lock);
        proof {
            assert(self.db.timelocks@ =~= db2.timelocks@.update(li as int, lock_g));
            lemma_sum_by_update(
                db2.timelocks@,
                |l: TimeLockContract| lock_funds(l),
                li as int,
                lock_g,
            );
            self.db.lemma_claim_index_unique(ci as int, lock_id@);
        }
        Ok(())
    }

    /// Finalize a claim. An unchallenged reveal pays the agent after the
    /// challenge window; a challenged claim resolves for the challenger, who
    /// recovers their bond plus the agent's, while the locked funds return to
    /// the lock's original sender.
    pub fn apply_finalize_claim(&mut self, lock_id: &TxId, now: Timestamp) -> (r: Result<
        (),
        ChronxError,
    >)
        requires
            old(self).inv(),
            0 <= now < 0x4000_0000_0000_0000,
        ensures
            final(self).inv(),
            final(self).db.circulating() == old(self).db.circulating(),
            final(self).pow_difficulty == old(self).pow_difficulty,
            ids_nonces_preserved(old(self).db.accounts@, final(self).db.accounts@),
            locks_frozen(old(self).db.timelocks@, final(self).db.timelocks@),
            r is Ok <==> (old(self).db.has_timelock(lock_id@) && old(self).db.has_claim(lock_id@)
                && ((old(self).db.timelock_of(lock_id@).status is ClaimRevealed
                && !spec_in_challenge_window(old(self).db, lock_id@, now) && old(
                self,
            ).db.claim_of(lock_id@).agent_id is Some && old(self).db.has_account(
                old(self).db.claim_of(lock_id@).agent_id.unwrap()@,
            )) || ((old(self).db.timelock_of(lock_id@).status is ClaimChallenged) && old(
                self,
            ).db.claim_of(lock_id@).challenger is Some && old(self).db.has_account(
                old(self).db.claim_of(lock_id@).challenger.unwrap()@,
            ) && old(self).db.has_account(old(self).db.timelock_of(lock_id@).sender@)))),
            match r {
                Ok(_) => {
                    let li = old(self).db.timelock_index(lock_id@);
                    let lock = old(self).db.timelock_of(lock_id@);
                    let c0 = old(self).db.claim_of(lock_id@);
                    let cfin = final(self).db.claim_of(lock_id@);
                    &&& (lock.status is ClaimRevealed ==> {
                        let agent = c0.agent_id.unwrap();
                        let ai = old(self).db.account_index(agent@);
                        &&& final(self).db.accounts@ == old(self).db.accounts@.update(
                            ai,
                            Account {
                                balance: (old(self).db.account_of(agent@).balance + lock.amount
                                    + c0.commit_bond) as u128,
                                ..old(self).db.account_of(agent@)
                            },
                        )
                        &&& final(self).db.timelocks@ == old(self).db.timelocks@.update(
                            li,
                            TimeLockContract {
                                status: TimeLockStatus::ClaimFinalized {
                                    paid_to: agent,
                                    finalized_at: now,
                                },
                                ..lock
                            },
                        )
                        &&& cfin.commit_bond == 0
                        &&& cfin.challenge_bond == c0.challenge_bond
                    })
                    &&& (lock.status is ClaimChallenged ==> {
                        let challenger = c0.challenger.unwrap();
                        let chi = old(self).db.account_index(challenger@);
                        let sei = old(self).db.account_index(lock.sender@);
                        let payout = c0.challenge_bond + c0.commit_bond;
                        &&& (chi == sei ==> final(self).db.accounts@ == old(
                            self,
                        ).db.accounts@.update(
                            chi,
                            Account {
                                balance: (old(self).db.account_of(challenger@).balance + payout
                                    + lock.amount) as u128,
                                ..old(self).db.account_of(challenger@)
                            },
                        ))
                        &&& (chi != sei ==> final(self).db.accounts@ == old(
                            self,
                        ).db.accounts@.update(
                            chi,
                            Account {
                                balance: (old(self).db.account_of(challenger@).balance
                                    + payout) as u128,
                                ..old(self).db.account_of(challenger@)
                            },
                        ).update(
                            sei,
                            Account {
                                balance: (old(self).db.account_of(lock.sender@).balance
                                    + lock.amount) as u128,
                                ..old(self).db.account_of(lock.sender@)
                            },
                        ))
                        &&& final(self).db.timelocks@ == old(self).db.timelocks@.update(
                            li,
                            TimeLockContract {
                                status: TimeLockStatus::ClaimSlashed {
                                    reason: crate::timelock::SlashReason::SuccessfulChallenge,
                                    slashed_at: now,
                                },
                                ..lock
                            },
                        )
                        &&& cfin.commit_bond == 0
                        &&& cfin.challenge_bond == 0
                    })
                    &&& final(self).db.claims@.len() == old(self).db.claims@.len()
                    &&& final(self).db.forfeited == old(self).db.forfeited
                    &&& final(self).db.vertices == old(self).db.vertices
                    &&& final(self).db.dag_tips == old(self).db.dag_tips
                    &&& final(self).db.providers == old(self).db.providers
                    &&& final(self).db.schemas == old(self).db.schemas
                    &&& final(self).db.oracle_snapshots == old(self).db.oracle_snapshots
                    &&& final(self).db.oracle_submissions == old(self).db.oracle_submissions
                    &&& final(self).db.next_schema_id_counter == old(
                        self,
                    ).db.next_schema_id_counter
                },
                Err(e) => final(self).db == old(self).db && (e matches
                    ChronxError::TimeLockNotFound(t) || e matches ChronxError::ClaimNotFound(t)
                    || e is ClaimChallengeWindowOpen || e is InvalidClaimStateTransition || e
                    matches ChronxError::UnknownAccount(a)),
            },
    {
        let li = match self.db.find_timelock(lock_id) {
            Some(i) => i,
            None => {
                return Err(ChronxError::TimeLockNotFound(*lock_id));
            },
        };
        proof {
            self.db.lemma_timelock_index_unique(li as int, lock_id@);
        }
        let ci = match self.db.find_claim(lock_id) {
            Some(i) => i,
            None => {
                return Err(ChronxError::ClaimNotFound(*lock_id));
            },
        };
        proof {
            self.db.lemma_claim_index_unique(ci as int, lock_id@);
        }

        let is_revealed = match self.db.timelocks[li].status {
            TimeLockStatus::ClaimRevealed { .. } => true,
            _ => false,
        };
        let is_challenged = match self.db.timelocks[li].status {
            TimeLockStatus::ClaimChallenged { .. } => true,
            _ => false,
        };

        if is_revealed {
            let revealed_at = match self.db.timelocks[li].status {
                TimeLockStatus::ClaimRevealed { revealed_at } => revealed_at,
                _ => 0,
            };
            let lane = crate::claims::ClaimLane::from_u8(self.db.claims[ci].lane);
            let thresholds = crate::claims::LaneThresholds::default_thresholds();
            let window = thresholds.challenge_window(lane);
            proof {
                assert(window == spec_default_challenge_window(self.db.claims@[ci as int].lane));
            }
            let still_open: bool = if revealed_at > now {
                true
            } else {
                now <= revealed_at + window
            };
            if still_open {
                return Err(ChronxError::ClaimChallengeWindowOpen);
            }
            let agent = match self.db.claims[ci].agent_id {
                Some(a) => a,
                None => {
                    return Err(ChronxError::InvalidClaimStateTransition);
                },
            };
            let ai = match self.db.find_account(&agent) {
                Some(i) => i,
                None => {
                    return Err(ChronxError::UnknownAccount(agent));
                },
            };
            proof {
                self.db.lemma_account_index_unique(ai as int, agent@);
                assert(self.db.claims@[ci as int].agent_id.unwrap() == agent);
            }

            let ghost db0 = self.db;
            proof {
                lemma_funds_bounds(db0);
            }

            // Pay the agent the locked amount plus their bond back.
            let amount = self.db.timelocks[li].amount;
            let bond = self.db.claims[ci].commit_bond;
            let mut a_acc = placeholder_account();
            self.db.accounts.set_and_swap(ai, &mut a_acc);
            a_acc.balance = a_acc.balance + amount + bond;
            let ghost credited = a_acc;
            self.db.accounts.set(ai, a_acc);
            proof {
                assert(self.db.accounts@ =~= db0.accounts@.update(ai as int, credited));
                lemma_sum_by_update(
                    db0.accounts@,
                    |a: Account| account_funds(a),
                    ai as int,
                    credited,
                );
            }

            // Zero the bond and finalize the lock.
            let ghost db1 = self.db;
            let mut cs = placeholder_claim(lock_id);
            self.db.claims.set_and_swap(ci, &mut cs);
            cs.commit_bond = 0;
            let ghost cleared = cs;
            self.db.claims.set(ci, cs);
            proof {
                assert(self.db.claims@ =~= db1.claims@.update(ci as int, cleared));
                lemma_sum_by_update(
                    db1.claims@,
                    |c: crate::claims::ClaimState| claim_funds(c),
                    ci as int,
                    cleared,
                );
            }
            let ghost db2 = self.db;
            let mut lock = placeholder_lock(lock_id);
            self.db.timelocks.set_and_swap(li, &mut lock);
            lock.status = TimeLockStatus::ClaimFinalized { paid_to: agent, finalized_at: now };
            let ghost lock_g = lock;
            self.db.timelocks.set(li, lock);
            proof {
                assert(self.db.timelocks@ =~= db2.timelocks@.update(li as int, lock_g));
                lemma_sum_by_update(
                    db2.timelocks@,
                    |l: TimeLockContract| lock_funds(l),
                    li as int,
                    lock_g,
                );
                self.db.lemma_claim_index_unique(ci as int, lock_id@);
            }
            return Ok(());
        }

        if is_challenged {
            // The challenger wins unconditionally in this protocol version.
            let challenger = match self.db.claims[ci].challenger {
                Some(c) => c,
                None => {
                    return Err(ChronxError::InvalidClaimStateTransition);
                },
            };
            let chi = match self.db.find_account(&challenger) {
                Some(i) => i,
                None => {
                    return Err(ChronxError::UnknownAccount(challenger));
                },
            };
            proof {
                self.db.lemma_account_index_unique(chi as int, challenger@);
                assert(self.db.claims@[ci as int].challenger.unwrap() == challenger);
            }
            let lock_sender = self.db.timelocks[li].sender;
            let sei = match self.db.find_account(&lock_sender) {
                Some(i) => i,
                None => {
                    return Err(ChronxError::UnknownAccount(lock_sender));
                },
            };
            proof {
                self.db.lemma_account_index_unique(sei as int, lock_sender@);
            }

            let ghost db0 = self.db;
            proof {
                lemma_funds_bounds(db0);
            }

            // Credit the challenger with both bonds.
            let amount = self.db.timelocks[li].amount;
            let commit_bond = self.db.claims[ci].commit_bond;
            let challenge_bond = self.db.claims[ci].challenge_bond;
            let mut c_acc = placeholder_account();
            self.db.accounts.set_and_swap(chi, &mut c_acc);
            c_acc.balance = c_acc.balance + challenge_bond + commit_bond;
            let ghost ch_credited = c_acc;
            self.db.accounts.set(chi, c_acc);
            proof {
                assert(self.db.accounts@ =~= db0.accounts@.update(chi as int, ch_credited));
                lemma_sum_by_update(
                    db0.accounts@,
                    |a: Account| account_funds(a),
                    chi as int,
                    ch_credited,
                );
            }

            // Return the locked amount to the lock's original sender.
            let ghost db1 = self.db;
            let mut s_acc = placeholder_account();
            self.db.accounts.set_and_swap(sei, &mut s_acc);
            s_acc.balance = s_acc.balance + amount;
            let ghost se_credited = s_acc;
            self.db.accounts.set(sei, s_acc);
            proof {
                assert(self.db.accounts@ =~= db1.accounts@.update(sei as int, se_credited));
                lemma_sum_by_update(
                    db1.accounts@,
                    |a: Account| account_funds(a),
                    sei as int,
                    se_credited,
                );
            }

            // Zero the bonds and slash the lock.
            let ghost db2 = self.db;
            let mut cs = placeholder_claim(lock_id);
            self.db.claims.set_and_swap(ci, &mut cs);
            cs.commit_bond = 0;
            cs.challenge_bond = 0;
            let ghost cleared = cs;
            self.db.claims.set(ci, cs);
            proof {
                assert(self.db.claims@ =~= db2.claims@.update(ci as int, cleared));
                lemma_sum_by_update(
                    db2.claims@,
                    |c: crate::claims::ClaimState| claim_funds(c),
                    ci as int,
                    cleared,
                );
            }
            let ghost db3 = self.db;
            let mut lock = placeholder_lock(lock_id);
            self.db.timelocks.set_and_swap(li, &mut lock);
            lock.status = TimeLockStatus::ClaimSlashed {
                reason: crate::timelock::SlashReason::SuccessfulChallenge,
                slashed_at: now,
            };
            let ghost lock_g = lock;
            self.db.timelocks.set(li, lock);
            proof {
                assert(self.db.timelocks@ =~= db3.timelocks@.update(li as int, lock_g));
                lemma_sum_by_update(
                    db3.timelocks@,
                    |l: TimeLockContract| lock_funds(l),
                    li as int,
                    lock_g,
                );
                self.db.lemma_claim_index_unique(ci as int, lock_id@);
            }
            return Ok(());
        }

        Err(ChronxError::InvalidClaimStateTransition)
    }

    // ── Registries and the oracle ────────────────────────────────────────────

    /// Register the sender as a certificate provider, holding a bond; the
    /// current signing key from their auth policy is stored.
    pub fn apply_register_provider(
        &mut self,
        sender: &AccountId,
        provider_class: &String,
        jurisdictions: &Vec<String>,
        bond_amount: Balance,
        now: Timestamp,
    ) -> (r: Result<(), ChronxError>)
        requires
            old(self).inv(),
        ensures
            final(self).inv(),
            final(self).db.circulating() == old(self).db.circulating(),
            final(self).pow_difficulty == old(self).pow_difficulty,
            ids_nonces_preserved(old(self).db.accounts@, final(self).db.accounts@),
            locks_frozen(old(self).db.timelocks@, final(self).db.timelocks@),
            r is Ok <==> (bond_amount >= crate::constants::PROVIDER_BOND_CHRONOS && old(
                self,
            ).db.has_account(sender@) && old(self).db.account_of(sender@).spec_spendable()
                >= bond_amount && !old(self).db.has_provider(sender@)),
            match r {
                Ok(_) => {
                    let si = old(self).db.account_index(sender@);
                    let pfin = final(self).db.provider_of(sender@);
                    &&& final(self).db.accounts@ == old(self).db.accounts@.update(
                        si,
                        Account {
                            balance: (old(self).db.account_of(sender@).balance
                                - bond_amount) as u128,
                            ..old(self).db.account_of(sender@)
                        },
                    )
                    &&& final(self).db.providers@.len() == old(self).db.providers@.len() + 1
                    &&& final(self).db.providers@.drop_last() == old(self).db.providers@
                    &&& final(self).db.has_provider(sender@)
                    &&& pfin.provider_id == *sender
                    &&& pfin.provider_class@ == provider_class@
                    &&& crate::strutil::str_seq_eqv(pfin.jurisdictions@, jurisdictions@)
                    &&& pfin.status is Active
                    &&& pfin.registration_bond == bond_amount
                    &&& pfin.registered_at == now
                    &&& pfin.public_keys@.len() == 1
                    &&& final(self).db.vertices == old(self).db.vertices
                    &&& final(self).db.timelocks == old(self).db.timelocks
                    &&& final(self).db.dag_tips == old(self).db.dag_tips
                    &&& final(self).db.schemas == old(self).db.schemas
                    &&& final(self).db.claims == old(self).db.claims
                    &&& final(self).db.oracle_snapshots == old(self).db.oracle_snapshots
                    &&& final(self).db.oracle_submissions == old(self).db.oracle_submissions
                    &&& final(self).db.next_schema_id_counter == old(
                        self,
                    ).db.next_schema_id_counter
                    &&& final(self).db.forfeited == old(self).db.forfeited
                },
                Err(e) => final(self).db == old(self).db && match e {
                    ChronxError::ProviderBondTooLow { min } => min
                        == crate::constants::PROVIDER_BOND_CHRONOS && bond_amount < min,
                    ChronxError::UnknownAccount(a) => a == *sender && bond_amount
                        >= crate::constants::PROVIDER_BOND_CHRONOS && !old(self).db.has_account(
                        sender@,
                    ),
                    ChronxError::InsufficientBalance { need, have } => bond_amount
                        >= crate::constants::PROVIDER_BOND_CHRONOS && old(self).db.has_account(
                        sender@,
                    ) && need == bond_amount && have == old(self).db.account_of(
                        sender@,
                    ).spec_spendable() && have < bond_amount,
                    ChronxError::ProviderAlreadyRegistered => bond_amount
                        >= crate::constants::PROVIDER_BOND_CHRONOS && old(self).db.has_account(
                        sender@,
                    ) && old(self).db.account_of(sender@).spec_spendable() >= bond_amount && old(
                        self,
                    ).db.has_provider(sender@),
                    _ => false,
                },
            },
    {
        if bond_amount < crate::constants::PROVIDER_BOND_CHRONOS {
            return Err(ChronxError::ProviderBondTooLow {
                min: crate::constants::PROVIDER_BOND_CHRONOS,
            });
        }
        let si = match self.db.find_account(sender) {
            Some(i) => i,
            None => {
                return Err(ChronxError::UnknownAccount(*sender));
            },
        };
        proof {
            self.db.lemma_account_index_unique(si as int, sender@);
        }
        let spendable = self.db.accounts[si].spendable_balance();
        if spendable < bond_amount {
            return Err(ChronxError::InsufficientBalance { need: bond_amount, have: spendable });
        }
        match self.db.find_provider(sender) {
            Some(_) => {
                return Err(ChronxError::ProviderAlreadyRegistered);
            },
            None => (),
        };

        let ghost db0 = self.db;

        // Debit the bond.
        let mut s_acc = placeholder_account();
        self.db.accounts.set_and_swap(si, &mut s_acc);
        s_acc.balance = s_acc.balance - bond_amount;

        // The provider's signing key comes from their current auth policy.
        let pubkey = match &s_acc.auth_policy {
            AuthPolicy::SingleSig { public_key } => public_key.clone(),
            AuthPolicy::RecoveryEnabled { owner_key, .. } => owner_key.clone(),
            AuthPolicy::MultiSig { public_keys, .. } => {
                if public_keys.len() > 0 {
                    public_keys[0].clone()
                } else {
                    DilithiumPublicKey(Vec::new())
                }
            },
        };
        let ghost debited = s_acc;
        self.db.accounts.set(si, s_acc);
        proof {
            assert(self.db.accounts@ =~= db0.accounts@.update(si as int, debited));
            lemma_sum_by_update(db0.accounts@, |a: Account| account_funds(a), si as int, debited);
        }

        let mut keys: Vec<DilithiumPublicKey> = Vec::new();
        keys.push(pubkey);
        let record = crate::claims::ProviderRecord {
            provider_id: *sender,
            public_keys: keys,
            provider_class: provider_class.clone(),
            jurisdictions: crate::strutil::clone_string_vec(jurisdictions),
            status: crate::claims::ProviderStatus::Active,
            registration_bond: bond_amount,
            registered_at: now,
        };
        let ghost record_g = record;
        let ghost db1 = self.db;
        self.db.providers.push(record);
        proof {
            lemma_sum_by_push(
                db1.providers@,
                |pr: crate::claims::ProviderRecord| provider_funds(pr),
                record_g,
            );
            assert(self.db.providers@.drop_last() =~= db1.providers@);
            self.db.lemma_provider_index_unique(self.db.providers@.len() - 1, sender@);
        }
        Ok(())
    }

    /// Revoke the sender's own provider record and refund the registration
    /// bond.
    pub fn apply_revoke_provider(
        &mut self,
        sender: &AccountId,
        provider_id: &AccountId,
        now: Timestamp,
    ) -> (r: Result<(), ChronxError>)
        requires
            old(self).inv(),
        ensures
            final(self).inv(),
            final(self).db.circulating() == old(self).db.circulating(),
            final(self).pow_difficulty == old(self).pow_difficulty,
            ids_nonces_preserved(old(self).db.accounts@, final(self).db.accounts@),
            locks_frozen(old(self).db.timelocks@, final(self).db.timelocks@),
            r is Ok <==> (old(self).db.has_provider(provider_id@) && sender@ == provider_id@
                && old(self).db.has_account(sender@)),
            match r {
                Ok(_) => {
                    let si = old(self).db.account_index(sender@);
                    let pi = old(self).db.provider_index(provider_id@);
                    let p0 = old(self).db.provider_of(provider_id@);
                    let pfin = final(self).db.provider_of(provider_id@);
                    &&& final(self).db.accounts@ == old(self).db.accounts@.update(
                        si,
                        Account {
                            balance: (old(self).db.account_of(sender@).balance
                                + p0.registration_bond) as u128,
                            ..old(self).db.account_of(sender@)
                        },
                    )
                    &&& final(self).db.providers@.len() == old(self).db.providers@.len()
                    &&& pfin.status == crate::claims::ProviderStatus::Revoked { revoked_at: now }
                    &&& pfin.registration_bond == 0
                    &&& pfin.provider_id == p0.provider_id
                    &&& crate::account::pk_seq_eqv(pfin.public_keys@, p0.public_keys@)
                    &&& pfin.provider_class@ == p0.provider_class@
                    &&& unchanged_but_accounts_providers(final(self).db, old(self).db)
                },
                Err(e) => final(self).db == old(self).db && match e {
                    ChronxError::ProviderNotFound(a) => a == *provider_id && !old(
                        self,
                    ).db.has_provider(provider_id@),
                    ChronxError::AuthPolicyViolation => old(self).db.has_provider(provider_id@)
                        && sender@ != provider_id@,
                    ChronxError::UnknownAccount(a) => a == *sender && old(self).db.has_provider(
                        provider_id@,
                    ) && sender@ == provider_id@ && !old(self).db.has_account(sender@),
                    _ => false,
                },
            },
    {
        let pi = match self.db.find_provider(provider_id) {
            Some(i) => i,
            None => {
                return Err(ChronxError::ProviderNotFound(*provider_id));
            },
        };
        proof {
            self.db.lemma_provider_index_unique(pi as int, provider_id@);
        }
        if !sender.same(provider_id) {
            return Err(ChronxError::AuthPolicyViolation);
        }
        let si = match self.db.find_account(sender) {
            Some(i) => i,
            None => {
                return Err(ChronxError::UnknownAccount(*sender));
            },
        };
        proof {
            self.db.lemma_account_index_unique(si as int, sender@);
        }

        let ghost db0 = self.db;
        proof {
            lemma_funds_bounds(db0);
        }

        // Mark revoked and release the bond.
        let mut rec = placeholder_provider(provider_id);
        self.db.providers.set_and_swap(pi, &mut rec);
        let bond = rec.registration_bond;
        rec.status = crate::claims::ProviderStatus::Revoked { revoked_at: now };
        rec.registration_bond = 0;
        let ghost revoked = rec;
        self.db.providers.set(pi, rec);
        proof {
            assert(self.db.providers@ =~= db0.providers@.update(pi as int, revoked));
            lemma_sum_by_update(
                db0.providers@,
                |pr: crate::claims::ProviderRecord| provider_funds(pr),
                pi as int,
                revoked,
            );
        }

        let ghost db1 = self.db;
        let mut s_acc = placeholder_account();
        self.db.accounts.set_and_swap(si, &mut s_acc);
        s_acc.balance = s_acc.balance + bond;
        let ghost credited = s_acc;
        self.db.accounts.set(si, s_acc);
        proof {
            assert(self.db.accounts@ =~= db1.accounts@.update(si as int, credited));
            lemma_sum_by_update(db1.accounts@, |a: Account| account_funds(a), si as int, credited);
            self.db.lemma_provider_index_unique(pi as int, provider_id@);
        }
        Ok(())
    }

    /// Append a new signing key to the sender's active provider record;
    /// historical keys stay for verifying older certificates.
    pub fn apply_rotate_provider_key(
        &mut self,
        sender: &AccountId,
        new_public_key: &DilithiumPublicKey,
    ) -> (r: Result<(), ChronxError>)
        requires
            old(self).inv(),
        ensures
            final(self).inv(),
            final(self).db.circulating() == old(self).db.circulating(),
            final(self).pow_difficulty == old(self).pow_difficulty,
            ids_nonces_preserved(old(self).db.accounts@, final(self).db.accounts@),
            locks_frozen(old(self).db.timelocks@, final(self).db.timelocks@),
            r is Ok <==> (old(self).db.has_provider(sender@) && !(old(self).db.provider_of(
                sender@,
            ).status is Revoked)),
            match r {
                Ok(_) => {
                    let p0 = old(self).db.provider_of(sender@);
                    let pfin = final(self).db.provider_of(sender@);
                    &&& final(self).db.providers@.len() == old(self).db.providers@.len()
                    &&& pfin.public_keys@.len() == p0.public_keys@.len() + 1
                    &&& pfin.public_keys@.last()@ == new_public_key@
                    &&& crate::account::pk_seq_eqv(
                        pfin.public_keys@.drop_last(),
                        p0.public_keys@,
                    )
                    &&& pfin.status == p0.status
                    &&& pfin.registration_bond == p0.registration_bond
                    &&& pfin.provider_id == p0.provider_id
                    &&& final(self).db.accounts == old(self).db.accounts
                    &&& unchanged_but_accounts_providers(final(self).db, old(self).db)
                },
                Err(e) => final(self).db == old(self).db && match e {
                    ChronxError::ProviderNotFound(a) => a == *sender && !old(
                        self,
                    ).db.has_provider(sender@),
                    ChronxError::ProviderRevoked => old(self).db.has_provider(sender@) && old(
                        self,
                    ).db.provider_of(sender@).status is Revoked,
                    _ => false,
                },
            },
    {
        let pi = match self.db.find_provider(sender) {
            Some(i) => i,
            None => {
                return Err(ChronxError::ProviderNotFound(*sender));
            },
        };
        proof {
            self.db.lemma_provider_index_unique(pi as int, sender@);
        }
        let revoked = match self.db.providers[pi].status {
            crate::claims::ProviderStatus::Revoked { .. } => true,
            _ => false,
        };
        if revoked {
            return Err(ChronxError::ProviderRevoked);
        }

        let ghost db0 = self.db;
        let mut rec = placeholder_provider(sender);
        self.db.providers.set_and_swap(pi, &mut rec);
        rec.public_keys.push(new_public_key.clone());
        let ghost rotated = rec;
        self.db.providers.set(pi, rec);
        proof {
            assert(self.db.providers@ =~= db0.providers@.update(pi as int, rotated));
            lemma_sum_by_update(
                db0.providers@,
                |pr: crate::claims::ProviderRecord| provider_funds(pr),
                pi as int,
                rotated,
            );
            self.db.lemma_provider_index_unique(pi as int, sender@);
            assert(rotated.public_keys@.drop_last() =~= db0.providers@[pi as int].public_keys@);
        }
        Ok(())
    }

    /// Register a certificate schema under a fresh sequential id; the bond is
    /// not held by the record and is forfeited to the protocol.
    pub fn apply_register_schema(
        &mut self,
        sender: &AccountId,
        name: &String,
        version: u32,
        required_fields_hash: &[u8; 32],
        provider_class_thresholds: &Vec<(String, u32)>,
        min_providers: u32,
        max_cert_age_secs: i64,
        bond_amount: Balance,
        now: Timestamp,
    ) -> (r: Result<(), ChronxError>)
        requires
            old(self).inv(),
        ensures
            final(self).inv(),
            final(self).db.circulating() == old(self).db.circulating(),
            final(self).pow_difficulty == old(self).pow_difficulty,
            ids_nonces_preserved(old(self).db.accounts@, final(self).db.accounts@),
            locks_frozen(old(self).db.timelocks@, final(self).db.timelocks@),
            r is Ok <==> (bond_amount >= crate::constants::SCHEMA_BOND_CHRONOS && old(
                self,
            ).db.has_account(sender@) && old(self).db.account_of(sender@).spec_spendable()
                >= bond_amount && old(self).db.next_schema_id_counter < u64::MAX),
            match r {
                Ok(_) => {
                    let si = old(self).db.account_index(sender@);
                    let id = old(self).db.next_schema_id_counter;
                    &&& final(self).db.accounts@ == old(self).db.accounts@.update(
                        si,
                        Account {
                            balance: (old(self).db.account_of(sender@).balance
                                - bond_amount) as u128,
                            ..old(self).db.account_of(sender@)
                        },
                    )
                    &&& final(self).db.next_schema_id_counter == id + 1
                    &&& final(self).db.has_schema(id)
                    &&& {
                        let sc = final(self).db.schema_of(id);
                        &&& sc.schema_id == id
                        &&& sc.name@ == name@
                        &&& sc.version == version
                        &&& sc.required_fields_hash == *required_fields_hash
                        &&& crate::claims::thresholds_eqv(
                            sc.provider_class_thresholds@,
                            provider_class_thresholds@,
                        )
                        &&& sc.signature_rules.min_providers == min_providers
                        &&& sc.signature_rules.max_cert_age_secs == max_cert_age_secs
                        &&& sc.active == true
                        &&& sc.registered_by == *sender
                        &&& sc.registered_at == now
                    }
                    &&& final(self).db.forfeited == old(self).db.forfeited + bond_amount
                    &&& final(self).db.vertices == old(self).db.vertices
                    &&& final(self).db.timelocks == old(self).db.timelocks
                    &&& final(self).db.dag_tips == old(self).db.dag_tips
                    &&& final(self).db.providers == old(self).db.providers
                    &&& final(self).db.claims == old(self).db.claims
                    &&& final(self).db.oracle_snapshots == old(self).db.oracle_snapshots
                    &&& final(self).db.oracle_submissions == old(self).db.oracle_submissions
                },
                Err(e) => final(self).db == old(self).db && match e {
                    ChronxError::SchemaBondTooLow { min } => min
                        == crate::constants::SCHEMA_BOND_CHRONOS && bond_amount < min,
                    ChronxError::UnknownAccount(a) => a == *sender && bond_amount
                        >= crate::constants::SCHEMA_BOND_CHRONOS && !old(self).db.has_account(
                        sender@,
                    ),
                    ChronxError::InsufficientBalance { need, have } => bond_amount
                        >= crate::constants::SCHEMA_BOND_CHRONOS && old(self).db.has_account(
                        sender@,
                    ) && need == bond_amount && have == old(self).db.account_of(
                        sender@,
                    ).spec_spendable() && have < bond_amount,
                    ChronxError::Storage => old(self).db.next_schema_id_counter == u64::MAX,
                    _ => false,
                },
            },
    {
        if bond_amount < crate::constants::SCHEMA_BOND_CHRONOS {
            return Err(ChronxError::SchemaBondTooLow {
                min: crate::constants::SCHEMA_BOND_CHRONOS,
            });
        }
        let si = match self.db.find_account(sender) {
            Some(i) => i,
            None => {
                return Err(ChronxError::UnknownAccount(*sender));
            },
        };
        proof {
            self.db.lemma_account_index_unique(si as int, sender@);
        }
        let spendable = self.db.accounts[si].spendable_balance();
        if spendable < bond_amount {
            return Err(ChronxError::InsufficientBalance { need: bond_amount, have: spendable });
        }
        if self.db.next_schema_id_counter == u64::MAX {
            return Err(ChronxError::Storage);
        }

        let ghost db0 = self.db;
        proof {
            lemma_funds_bounds(db0);
        }

        // Debit the bond; it is not stored on the record, so it is forfeited.
        let mut s_acc = placeholder_account();
        self.db.accounts.set_and_swap(si, &mut s_acc);
        s_acc.balance = s_acc.balance - bond_amount;
        let ghost debited = s_acc;
        self.db.accounts.set(si, s_acc);
        proof {
            assert(self.db.accounts@ =~= db0.accounts@.update(si as int, debited));
            lemma_sum_by_update(db0.accounts@, |a: Account| account_funds(a), si as int, debited);
        }
        self.db.forfeited = self.db.forfeited + bond_amount;

        let schema_id = match self.db.next_schema_id() {
            Ok(id) => id,
            Err(_) => {
                // The counter bound was checked above.
                proof {
                    assert(false);
                }
                return Err(ChronxError::Storage);
            },
        };
        let schema = crate::claims::CertificateSchema {
            schema_id,
            name: name.clone(),
            version,
            required_fields_hash: *required_fields_hash,
            provider_class_thresholds: crate::claims::clone_thresholds(provider_class_thresholds),
            signature_rules: crate::claims::SignatureRules { min_providers, max_cert_age_secs },
            active: true,
            registered_by: *sender,
            registered_at: now,
        };
        let ghost db1 = self.db;
        let ghost schema_g = schema;
        let ghost had = self.db.has_schema(schema_id);
        // A schema under this id can only pre-exist if it was seeded past the
        // counter; it is replaced.
        self.db.put_schema(schema);
        proof {
            if had {
                let sci = db1.schema_index(schema_id);
                self.db.lemma_schema_index_unique(sci, schema_id);
            } else {
                self.db.lemma_schema_index_unique(self.db.schemas@.len() - 1, schema_id);
            }
        }
        Ok(())
    }

    /// Deactivate a schema; only its registrant may do so.
    pub fn apply_deactivate_schema(&mut self, sender: &AccountId, schema_id: u64) -> (r: Result<
        (),
        ChronxError,
    >)
        requires
            old(self).inv(),
        ensures
            final(self).inv(),
            final(self).db.circulating() == old(self).db.circulating(),
            final(self).pow_difficulty == old(self).pow_difficulty,
            ids_nonces_preserved(old(self).db.accounts@, final(self).db.accounts@),
            locks_frozen(old(self).db.timelocks@, final(self).db.timelocks@),
            r is Ok <==> (old(self).db.has_schema(schema_id) && old(self).db.schema_of(
                schema_id,
            ).registered_by@ == sender@),
            match r {
                Ok(_) => {
                    let sc0 = old(self).db.schema_of(schema_id);
                    let scfin = final(self).db.schema_of(schema_id);
                    &&& final(self).db.schemas@.len() == old(self).db.schemas@.len()
                    &&& scfin.active == false
                    &&& scfin.schema_id == sc0.schema_id
                    &&& scfin.name@ == sc0.name@
                    &&& scfin.version == sc0.version
                    &&& scfin.registered_by == sc0.registered_by
                    &&& final(self).db.accounts == old(self).db.accounts
                    &&& final(self).db.vertices == old(self).db.vertices
                    &&& final(self).db.timelocks == old(self).db.timelocks
                    &&& final(self).db.dag_tips == old(self).db.dag_tips
                    &&& final(self).db.providers == old(self).db.providers
                    &&& final(self).db.claims == old(self).db.claims
                    &&& final(self).db.oracle_snapshots == old(self).db.oracle_snapshots
                    &&& final(self).db.oracle_submissions == old(self).db.oracle_submissions
                    &&& final(self).db.next_schema_id_counter == old(
                        self,
                    ).db.next_schema_id_counter
                    &&& final(self).db.forfeited == old(self).db.forfeited
                },
                Err(e) => final(self).db == old(self).db && match e {
                    ChronxError::SchemaNotFound(id) => id == schema_id && !old(
                        self,
                    ).db.has_schema(schema_id),
                    ChronxError::AuthPolicyViolation => old(self).db.has_schema(schema_id)
                        && old(self).db.schema_of(schema_id).registered_by@ != sender@,
                    _ => false,
                },
            },
    {
        let sci = match self.db.find_schema(schema_id) {
            Some(i) => i,
            None => {
                return Err(ChronxError::SchemaNotFound(schema_id));
            },
        };
        proof {
            self.db.lemma_schema_index_unique(sci as int, schema_id);
        }
        if !self.db.schemas[sci].registered_by.same(sender) {
            return Err(ChronxError::AuthPolicyViolation);
        }

        let ghost db0 = self.db;
        let mut sc = placeholder_schema(schema_id);
        self.db.schemas.set_and_swap(sci, &mut sc);
        sc.active = false;
        let ghost deactivated = sc;
        self.db.schemas.set(sci, sc);
        proof {
            assert(self.db.schemas@ =~= db0.schemas@.update(sci as int, deactivated));
            self.db.lemma_schema_index_unique(sci as int, schema_id);
        }
        Ok(())
    }

    /// Submit a price observation. Only an active provider of class "oracle"
    /// may submit. After the submission is stored, the pair's snapshot is
    /// recomputed: if at least three submissions are fresh (at most one hour
    /// old), their median becomes the new snapshot; otherwise the old
    /// snapshot stands.
    pub fn apply_submit_oracle_price(
        &mut self,
        sender: &AccountId,
        pair: &String,
        price_cents: u64,
        now: Timestamp,
    ) -> (r: Result<(), ChronxError>)
        requires
            old(self).inv(),
        ensures
            final(self).inv(),
            final(self).db.circulating() == old(self).db.circulating(),
            final(self).pow_difficulty == old(self).pow_difficulty,
            ids_nonces_preserved(old(self).db.accounts@, final(self).db.accounts@),
            locks_frozen(old(self).db.timelocks@, final(self).db.timelocks@),
            r is Ok <==> (old(self).db.has_provider(sender@) && !(old(self).db.provider_of(
                sender@,
            ).status is Revoked) && old(self).db.provider_of(sender@).provider_class@
                == "oracle"@),
            match r {
                Ok(_) => {
                    let subs1 = final(self).db.oracle_submissions@;
                    let fresh = spec_fresh_prices(subs1, pair@, now);
                    &&& final(self).db.has_submission(pair@, sender@)
                    &&& {
                        let sub = subs1[final(self).db.submission_index(pair@, sender@)];
                        sub.submitter == *sender && sub.pair@ == pair@ && sub.price_cents
                            == price_cents && sub.submitted_at == now
                    }
                    &&& (old(self).db.has_submission(pair@, sender@) ==> subs1.len() == old(
                        self,
                    ).db.oracle_submissions@.len())
                    &&& (!old(self).db.has_submission(pair@, sender@) ==> subs1.len() == old(
                        self,
                    ).db.oracle_submissions@.len() + 1)
                    &&& (fresh.len() < crate::constants::ORACLE_MIN_SUBMISSIONS ==> final(self).db.oracle_snapshots == old(self).db.oracle_snapshots)
                    &&& (fresh.len() >= crate::constants::ORACLE_MIN_SUBMISSIONS ==> final(self).db.has_snapshot(pair@) && {
                        let snap = final(self).db.snapshot_of(pair@);
                        &&& snap.pair@ == pair@
                        &&& snap.updated_at == now
                        &&& snap.num_submissions == fresh.len() as u32
                        &&& exists|sorted: Seq<u64>|
                            sorted_u64(sorted) && sorted.to_multiset() == fresh.to_multiset()
                                && sorted.len() == fresh.len() && snap.price_cents == sorted[(
                                sorted.len() / 2) as int]
                    })
                    &&& final(self).db.accounts == old(self).db.accounts
                    &&& final(self).db.vertices == old(self).db.vertices
                    &&& final(self).db.timelocks == old(self).db.timelocks
                    &&& final(self).db.dag_tips == old(self).db.dag_tips
                    &&& final(self).db.providers == old(self).db.providers
                    &&& final(self).db.schemas == old(self).db.schemas
                    &&& final(self).db.claims == old(self).db.claims
                    &&& final(self).db.next_schema_id_counter == old(
                        self,
                    ).db.next_schema_id_counter
                    &&& final(self).db.forfeited == old(self).db.forfeited
                },
                Err(e) => final(self).db == old(self).db && match e {
                    ChronxError::ProviderNotFound(a) => a == *sender && !old(
                        self,
                    ).db.has_provider(sender@),
                    ChronxError::ProviderRevoked => old(self).db.has_provider(sender@) && old(
                        self,
                    ).db.provider_of(sender@).status is Revoked,
                    ChronxError::AuthPolicyViolation => old(self).db.has_provider(sender@)
                        && !(old(self).db.provider_of(sender@).status is Revoked) && old(
                        self,
                    ).db.provider_of(sender@).provider_class@ != "oracle"@,
                    _ => false,
                },
            },
    {
        let pi = match self.db.find_provider(sender) {
            Some(i) => i,
            None => {
                return Err(ChronxError::ProviderNotFound(*sender));
            },
        };
        proof {
            self.db.lemma_provider_index_unique(pi as int, sender@);
        }
        let revoked = match self.db.providers[pi].status {
            crate::claims::ProviderStatus::Revoked { .. } => true,
            _ => false,
        };
        if revoked {
            return Err(ChronxError::ProviderRevoked);
        }
        if !crate::strutil::str_eq(self.db.providers[pi].provider_class.as_str(), "oracle") {
            return Err(ChronxError::AuthPolicyViolation);
        }

        let sub = crate::claims::OracleSubmission {
            submitter: *sender,
            pair: pair.clone(),
            price_cents,
            submitted_at: now,
        };
        let ghost db0 = self.db;
        let ghost had = self.db.has_submission(pair@, sender@);
        self.db.put_oracle_submission(sub);
        proof {
            if had {
                let sbi = db0.submission_index(pair@, sender@);
                self.db.lemma_submission_index_unique(sbi, pair@, sender@);
            } else {
                self.db.lemma_submission_index_unique(
                    self.db.oracle_submissions@.len() - 1,
                    pair@,
                    sender@,
                );
            }
        }

        // Recompute the pair's snapshot from the fresh submissions.
        let by_pair = self.db.iter_oracle_submissions_for_pair(pair.as_str());
        let ghost pair_pred = |x: crate::claims::OracleSubmission| x.pair@ == pair@;
        let ghost m = self.db.oracle_submissions@.filter(pair_pred);
        let mut prices: Vec<u64> = Vec::new();
        let n: usize = by_pair.len();
        let mut i: usize = 0;
        let ghost fresh_pred = |x: crate::claims::OracleSubmission| now - x.submitted_at
            <= crate::constants::ORACLE_MAX_AGE_SECS;
        #[verifier::loop_isolation(false)]
        while i < n
            invariant
                i <= n,
                prices@ == m.take(i as int).filter(fresh_pred).map_values(
                    |x: crate::claims::OracleSubmission| x.price_cents,
                ),
            decreases n - i,
        {
            proof {
                let t1 = m.take((i + 1) as int);
                let t0 = m.take(i as int);
                assert(t1.drop_last() =~= t0);
                assert(t1.last() == m[i as int]);
                reveal_with_fuel(Seq::<crate::claims::OracleSubmission>::filter, 2);
                if fresh_pred(m[i as int]) {
                    assert(t1.filter(fresh_pred) == t0.filter(fresh_pred).push(m[i as int]));
                } else {
                    assert(t1.filter(fresh_pred) == t0.filter(fresh_pred));
                }
                assert(crate::claims::submission_eqv(by_pair@[i as int], m[i as int]));
            }
            let fresh = (now as i128) - (by_pair[i].submitted_at as i128)
                <= crate::constants::ORACLE_MAX_AGE_SECS as i128;
            if fresh {
                prices.push(by_pair[i].price_cents);
                proof {
                    assert(prices@ =~= m.take((i + 1) as int).filter(fresh_pred).map_values(
                        |x: crate::claims::OracleSubmission| x.price_cents,
                    ));
                }
            } else {
                proof {
                    assert(prices@ =~= m.take((i + 1) as int).filter(fresh_pred).map_values(
                        |x: crate::claims::OracleSubmission| x.price_cents,
                    ));
                }
            }
            i += 1;
        }
        proof {
            assert(m.take(n as int) =~= m);
            assert(prices@ == spec_fresh_prices(self.db.oracle_submissions@, pair@, now));
        }

        if prices.len() < crate::constants::ORACLE_MIN_SUBMISSIONS {
            // Not enough fresh data; the previous snapshot stands.
            return Ok(());
        }
        let sorted = sort_u64(&prices);
        let median = sorted[sorted.len() / 2];
        let snap = crate::claims::OracleSnapshot {
            pair: pair.clone(),
            price_cents: median,
            num_submissions: #[verifier::truncate] (prices.len() as u32),
            updated_at: now,
        };
        let ghost db1 = self.db;
        let ghost had_snap = self.db.has_snapshot(pair@);
        self.db.put_oracle_snapshot(snap);
        proof {
            if had_snap {
                let sni = db1.snapshot_index(pair@);
                self.db.lemma_snapshot_index_unique(sni, pair@);
            } else {
                self.db.lemma_snapshot_index_unique(
                    self.db.oracle_snapshots@.len() - 1,
                    pair@,
                );
            }
            assert(sorted_u64(sorted@) && sorted@.to_multiset() == spec_fresh_prices(
                self.db.oracle_submissions@,
                pair@,
                now,
            ).to_multiset() && sorted@.len() == spec_fresh_prices(
                self.db.oracle_submissions@,
                pair@,
                now,
            ).len() && median == sorted@[(sorted@.len() / 2) as int]);
        }
        Ok(())
    }

    /// Validate and apply a transaction atomically: the vertex checks, the
    /// duplicate/expiry/nonce/signature gates, then every action in declared
    /// order against the live state. If any action fails, the pre-state is
    /// restored; on success the nonce has advanced by one, the vertex is
    /// persisted with its DAG depth, and the tips move from the parents to
    /// the new transaction. The total supply held is preserved either way,
    /// and a lock that was terminal before the call is untouched.
    #[verifier::rlimit(100)]
    #[verifier::spinoff_prover]
    pub fn apply(&mut self, tx: Transaction, now: Timestamp) -> (r: Result<(), ChronxError>)
        requires
            old(self).inv(),
            0 <= now < 0x4000_0000_0000_0000,
        ensures
            final(self).inv(),
            final(self).db.circulating() == old(self).db.circulating(),
            final(self).pow_difficulty == old(self).pow_difficulty,
            r is Ok ==> crate::validation::spec_vertex_valid(
                tx,
                old(self).pow_difficulty,
                old(self).db,
            ) && !old(self).db.has_vertex(tx.tx_id@) && (tx.expires_at matches Some(exp) ==> now
                <= exp) && old(self).db.has_account(tx.from@) && tx.nonce == old(
                self,
            ).db.account_of(tx.from@).nonce && crate::validation::spec_signatures_valid(
                tx,
                spec_effective_policy(old(self).db.account_of(tx.from@), tx),
            ),
            r is Ok ==> final(self).db.has_account(tx.from@) && final(self).db.account_of(
                tx.from@,
            ).nonce == tx.nonce + 1,
            r is Ok ==> final(self).db.vertices@.len() == old(self).db.vertices@.len() + 1
                && final(self).db.vertices@.drop_last() == old(self).db.vertices@ && {
                let v = final(self).db.vertices@.last();
                &&& v.transaction == tx
                &&& v.depth == spec_depth(old(self).db, tx)
                &&& v.received_at == now
                &&& v.status is Pending
            },
            r is Ok ==> final(self).db.has_tip(tx.tx_id@) && forall|i: int|
                0 <= i < tx.parents@.len() && tx.parents@[i]@ != tx.tx_id@ ==> !final(self).db.has_tip(#[trigger] tx.parents@[i]@),
            r is Ok ==> locks_frozen(old(self).db.timelocks@, final(self).db.timelocks@),
            r is Ok ==> exists|mid1: StateDb, mid2: StateDb|
                spec_prep_rel(old(self).db, mid1, tx) && #[trigger] spec_actions_chain(
                    mid1,
                    mid2,
                    tx.from,
                    tx.tx_id,
                    tx.actions@,
                    now,
                ) && spec_dag_rel(mid2, final(self).db, tx, now),
            tx.actions@.len() == 1 ==> (r is Ok <==> (spec_apply_prechecks(*old(self), tx, now)
                && action_ok(old(self).db, tx.from, tx.tx_id, tx.actions@[0], now))),
            r is Err ==> db_eqv(final(self).db, old(self).db),
            crate::validation::spec_vertex_valid(tx, old(self).pow_difficulty, old(self).db)
                && old(self).db.has_vertex(tx.tx_id@) ==> r == Err::<(), ChronxError>(
                ChronxError::DuplicateVertex(tx.tx_id),
            ),
            !crate::validation::spec_vertex_valid(tx, old(self).pow_difficulty, old(self).db)
                ==> r is Err,
            crate::validation::spec_vertex_valid(tx, old(self).pow_difficulty, old(self).db)
                && !old(self).db.has_vertex(tx.tx_id@) && spec_expired(tx, now) ==> r == Err::<
                (),
                ChronxError,
            >(ChronxError::TransactionExpired),
            crate::validation::spec_vertex_valid(tx, old(self).pow_difficulty, old(self).db)
                && !old(self).db.has_vertex(tx.tx_id@) && !spec_expired(tx, now) && !old(
                self,
            ).db.has_account(tx.from@) ==> r == Err::<(), ChronxError>(
                ChronxError::UnknownAccount(tx.from),
            ),
            crate::validation::spec_vertex_valid(tx, old(self).pow_difficulty, old(self).db)
                && !old(self).db.has_vertex(tx.tx_id@) && !spec_expired(tx, now) && old(
                self,
            ).db.has_account(tx.from@) && tx.nonce != old(self).db.account_of(tx.from@).nonce
                ==> r == Err::<(), ChronxError>(
                ChronxError::InvalidNonce {
                    expected: old(self).db.account_of(tx.from@).nonce,
                    got: tx.nonce,
                },
            ),
            crate::validation::spec_vertex_valid(tx, old(self).pow_difficulty, old(self).db)
                && !old(self).db.has_vertex(tx.tx_id@) && !spec_expired(tx, now) && old(
                self,
            ).db.has_account(tx.from@) && tx.nonce == old(self).db.account_of(tx.from@).nonce
                && !spec_key_install_ok(old(self).db.account_of(tx.from@), tx) ==> r == Err::<
                (),
                ChronxError,
            >(ChronxError::AuthPolicyViolation),
            crate::validation::spec_vertex_valid(tx, old(self).pow_difficulty, old(self).db)
                && !old(self).db.has_vertex(tx.tx_id@) && !spec_expired(tx, now) && old(
                self,
            ).db.has_account(tx.from@) && tx.nonce == old(self).db.account_of(tx.from@).nonce
                && spec_key_install_ok(old(self).db.account_of(tx.from@), tx)
                && !crate::validation::spec_signatures_valid(
                tx,
                spec_effective_policy(old(self).db.account_of(tx.from@), tx),
            ) ==> r is Err,
    {
        let ghost tx_spec = tx;
        // ── DAG-level validation ─────────────────────────────────────────────
        match crate::validation::validate_vertex(&tx, self.pow_difficulty, &self.db) {
            Ok(_) => (),
            Err(e) => {
                proof {
                    lemma_db_eqv_refl(self.db);
                }
                return Err(e);
            },
        }

        // ── Duplicate check ──────────────────────────────────────────────────
        if self.db.vertex_exists(&tx.tx_id) {
            proof {
                lemma_db_eqv_refl(self.db);
            }
            return Err(ChronxError::DuplicateVertex(tx.tx_id));
        }

        // ── Expiry check ─────────────────────────────────────────────────────
        match tx.expires_at {
            Some(exp) => {
                if now > exp {
                    proof {
                        lemma_db_eqv_refl(self.db);
                    }
                    return Err(ChronxError::TransactionExpired);
                }
            },
            None => (),
        }

        // ── Resolve the sender ───────────────────────────────────────────────
        let si = match self.db.find_account(&tx.from) {
            Some(i) => i,
            None => {
                proof {
                    lemma_db_eqv_refl(self.db);
                }
                return Err(ChronxError::UnknownAccount(tx.from));
            },
        };
        proof {
            self.db.lemma_account_index_unique(si as int, tx.from@);
        }

        // ── Nonce check ──────────────────────────────────────────────────────
        let sender_nonce = self.db.accounts[si].nonce;
        if tx.nonce != sender_nonce {
            proof {
                lemma_db_eqv_refl(self.db);
            }
            return Err(ChronxError::InvalidNonce { expected: sender_nonce, got: tx.nonce });
        }

        // ── Snapshot for atomicity ───────────────────────────────────────────
        let ghost db_orig = self.db;
        let backup = take_backup(&self.db);

        // ── First-spend key registration ─────────────────────────────────────
        // An account created by Transfer has an empty key; its first outbound
        // transaction must carry the key hashing to its id, which is then
        // installed permanently.
        let key_empty = match &self.db.accounts[si].auth_policy {
            AuthPolicy::SingleSig { public_key } => public_key.0.len() == 0,
            _ => false,
        };
        if key_empty {
            match &tx.sender_public_key {
                Some(k) => {
                    let derived = account_id_from_pubkey(k.0.as_slice());
                    if !derived.same(&tx.from) {
                        proof {
                            lemma_db_eqv_refl(self.db);
                        }
                        return Err(ChronxError::AuthPolicyViolation);
                    }
                    let ghost db0 = self.db;
                    let mut s_acc = placeholder_account();
                    self.db.accounts.set_and_swap(si, &mut s_acc);
                    s_acc.auth_policy = AuthPolicy::SingleSig { public_key: k.clone() };
                    let ghost keyed = s_acc;
                    self.db.accounts.set(si, s_acc);
                    proof {
                        assert(self.db.accounts@ =~= db0.accounts@.update(si as int, keyed));
                        lemma_sum_by_update(
                            db0.accounts@,
                            |a: Account| account_funds(a),
                            si as int,
                            keyed,
                        );
                    }
                },
                None => (),
            }
        }

        // ── Signature validation against the (possibly updated) policy ──────
        proof {
            assert(spec_key_install_ok(db_orig.accounts@[si as int], tx_spec));
            let pol = self.db.accounts@[si as int].auth_policy;
            let eff = spec_effective_policy(db_orig.accounts@[si as int], tx_spec);
            assert(crate::validation::spec_signatures_valid(tx_spec, pol)
                == crate::validation::spec_signatures_valid(tx_spec, eff)) by {
                match (pol, eff) {
                    (
                        AuthPolicy::SingleSig { public_key: k1 },
                        AuthPolicy::SingleSig { public_key: k2 },
                    ) => {
                        assert(k1@ == k2@);
                    },
                    _ => {},
                }
            }
        }
        match crate::validation::validate_signatures(&tx, &self.db.accounts[si].auth_policy) {
            Ok(_) => (),
            Err(e) => {
                restore_backup(&mut self.db, backup);
                proof {
                    assert(db_eqv(self.db, db_orig));
                    lemma_restore_inv(db_orig, self.db);
                }
                return Err(e);
            },
        }

        // ── Increment the nonce up front; no action reads or writes it ──────
        {
            let ghost db0 = self.db;
            let mut s_acc = placeholder_account();
            self.db.accounts.set_and_swap(si, &mut s_acc);
            if s_acc.nonce == u64::MAX {
                // A nonce can never wrap.
                self.db.accounts.set(si, s_acc);
                restore_backup(&mut self.db, backup);
                proof {
                    assert(db_eqv(self.db, db_orig));
                    lemma_restore_inv(db_orig, self.db);
                }
                return Err(ChronxError::Storage);
            }
            s_acc.nonce = s_acc.nonce + 1;
            let ghost bumped = s_acc;
            self.db.accounts.set(si, s_acc);
            proof {
                assert(self.db.accounts@ =~= db0.accounts@.update(si as int, bumped));
                lemma_sum_by_update(
                    db0.accounts@,
                    |a: Account| account_funds(a),
                    si as int,
                    bumped,
                );
                self.db.lemma_account_index_unique(si as int, tx.from@);
                assert(self.db.account_of(tx.from@).nonce == tx.nonce + 1);
            }
        }
        let ghost db_bump = self.db;
        proof {
            assert(db_orig.account_index(tx.from@) == si as int);
            assert(spec_prep_rel(db_orig, db_bump, tx_spec));
            assert(spec_bump_similar(db_orig, db_bump));
        }

        // ── Apply each action in declared order ─────────────────────────────
        let ghost circ0 = self.db.circulating();
        let ghost locks0 = self.db.timelocks@;
        let n: usize = tx.actions.len();
        let mut k: usize = 0;
        while k < n
            invariant
                n == tx.actions@.len(),
                k <= n,
                self.inv(),
                0 <= now < 0x4000_0000_0000_0000,
                self.db.circulating() == circ0,
                circ0 == old(self).db.circulating(),
                self.pow_difficulty == old(self).pow_difficulty,
                self.db.vertices == db_orig.vertices,
                self.db.dag_tips == db_orig.dag_tips,
                locks_frozen(locks0, self.db.timelocks@),
                locks_frozen(old(self).db.timelocks@, self.db.timelocks@),
                self.db.has_account(tx.from@),
                self.db.account_of(tx.from@).nonce == tx.nonce + 1,
                backup_eqv(backup, db_orig),
                db_orig == old(self).db,
                old(self).inv(),
                tx_spec == tx,
                crate::validation::spec_vertex_valid(
                    tx_spec,
                    old(self).pow_difficulty,
                    old(self).db,
                ),
                !old(self).db.has_vertex(tx_spec.tx_id@),
                tx_spec.expires_at matches Some(exp) ==> now <= exp,
                old(self).db.has_account(tx_spec.from@),
                tx_spec.nonce == old(self).db.account_of(tx_spec.from@).nonce,
                crate::validation::spec_signatures_valid(
                    tx_spec,
                    spec_effective_policy(old(self).db.account_of(tx_spec.from@), tx_spec),
                ),
                spec_key_install_ok(old(self).db.account_of(tx_spec.from@), tx_spec),
                tx_spec.nonce < u64::MAX,
                spec_prep_rel(old(self).db, db_bump, tx_spec),
                spec_bump_similar(old(self).db, db_bump),
                db_bump.wf(),
                spec_actions_chain(
                    db_bump,
                    self.db,
                    tx_spec.from,
                    tx_spec.tx_id,
                    tx_spec.actions@.take(k as int),
                    now,
                ),
                k == 0 ==> self.db == db_bump,
            decreases n - k,
        {
            let ghost db_pre = self.db;
            let step: Result<(), ChronxError> = match &tx.actions[k] {
                Action::Transfer { to, amount } => self.apply_transfer(&tx.from, to, *amount),
                Action::TimeLockCreate {
                    recipient,
                    amount,
                    unlock_at,
                    memo,
                    cancellation_window_secs,
                    notify_recipient,
                    tags,
                    private,
                    expiry_policy,
                    split_policy,
                    claim_attempts_max,
                    recurring,
                    extension_data,
                } => {
                    if self.db.find_timelock(&tx.tx_id).is_some() {
                        Err(ChronxError::Storage)
                    } else {
                        self.apply_time_lock_create(
                            &tx.tx_id,
                            &tx.from,
                            recipient,
                            *amount,
                            *unlock_at,
                            memo,
                            *cancellation_window_secs,
                            *notify_recipient,
                            tags,
                            *private,
                            *expiry_policy,
                            split_policy,
                            *claim_attempts_max,
                            *recurring,
                            extension_data,
                            now,
                        )
                    }
                },
                Action::TimeLockClaim { lock_id } => self.apply_time_lock_claim(
                    &tx.from,
                    &lock_id.0,
                    now,
                ),
                Action::TimeLockSell { .. } => self.apply_time_lock_sell(),
                Action::CancelTimeLock { lock_id } => self.apply_cancel_time_lock(
                    &tx.from,
                    &lock_id.0,
                    now,
                ),
                Action::StartRecovery {
                    target_account,
                    proposed_owner_key,
                    evidence_hash,
                    bond_amount,
                } => self.apply_start_recovery(
                    &tx.from,
                    target_account,
                    proposed_owner_key,
                    evidence_hash,
                    *bond_amount,
                    now,
                ),
                Action::ChallengeRecovery {
                    target_account,
                    counter_evidence_hash,
                    bond_amount,
                } => self.apply_challenge_recovery(
                    &tx.from,
                    target_account,
                    counter_evidence_hash,
                    *bond_amount,
                    now,
                ),
                Action::FinalizeRecovery { target_account } => self.apply_finalize_recovery(
                    target_account,
                    now,
                ),
                Action::RegisterVerifier { stake_amount } => self.apply_register_verifier(
                    &tx.from,
                    *stake_amount,
                ),
                Action::VoteRecovery { target_account, approve, fee_bid: _ } => self
                    .apply_vote_recovery(&tx.from, target_account, *approve, &tx.tx_id),
                Action::OpenClaim { lock_id } => self.apply_open_claim(&lock_id.0, now),
                Action::SubmitClaimCommit { lock_id, commit_hash, bond_amount } => self
                    .apply_submit_claim_commit(&tx.from, &lock_id.0, commit_hash, *bond_amount, now),
                Action::RevealClaim { lock_id, payload, salt, certificates } => self
                    .apply_reveal_claim(&tx.from, &lock_id.0, payload, salt, certificates, now),
                Action::ChallengeClaimReveal { lock_id, evidence_hash, bond_amount } => self
                    .apply_challenge_claim_reveal(
                    &tx.from,
                    &lock_id.0,
                    evidence_hash,
                    *bond_amount,
                    now,
                ),
                Action::FinalizeClaim { lock_id } => self.apply_finalize_claim(&lock_id.0, now),
                Action::RegisterProvider { provider_class, jurisdictions, bond_amount } => self
                    .apply_register_provider(
                    &tx.from,
                    provider_class,
                    jurisdictions,
                    *bond_amount,
                    now,
                ),
                Action::RevokeProvider { provider_id } => self.apply_revoke_provider(
                    &tx.from,
                    provider_id,
                    now,
                ),
                Action::RotateProviderKey { new_public_key } => self.apply_rotate_provider_key(
                    &tx.from,
                    new_public_key,
                ),
                Action::RegisterSchema {
                    name,
                    version,
                    required_fields_hash,
                    provider_class_thresholds,
                    min_providers,
                    max_cert_age_secs,
                    bond_amount,
                } => self.apply_register_schema(
                    &tx.from,
                    name,
                    *version,
                    required_fields_hash,
                    provider_class_thresholds,
                    *min_providers,
                    *max_cert_age_secs,
                    *bond_amount,
                    now,
                ),
                Action::DeactivateSchema { schema_id } => self.apply_deactivate_schema(
                    &tx.from,
                    *schema_id,
                ),
                Action::SubmitOraclePrice { pair, price_cents } => self.apply_submit_oracle_price(
                    &tx.from,
                    pair,
                    *price_cents,
                    now,
                ),
            };
            proof {
                let act = tx_spec.actions@[k as int];
                assert(step is Ok <==> action_ok(db_pre, tx_spec.from, tx_spec.tx_id, act, now));
                if step is Ok {
                    assert(action_rel(db_pre, self.db, tx_spec.from, tx_spec.tx_id, act, now));
                }
            }
            match step {
                Ok(_) => (),
                Err(e) => {
                    proof {
                        if n == 1 && k == 0 {
                            lemma_action_ok_stable(
                                old(self).db,
                                db_bump,
                                tx_spec.from,
                                tx_spec.tx_id,
                                tx_spec.actions@[0],
                                now,
                            );
                        }
                    }
                    restore_backup(&mut self.db, backup);
                    proof {
                        assert(db_eqv(self.db, db_orig));
                        lemma_restore_inv(db_orig, self.db);
                    }
                    return Err(e);
                },
            }
            proof {
                let ip = db_pre.account_index(tx.from@);
                assert(db_pre.accounts@[ip].account_id@ == tx.from@);
                assert(self.db.accounts@[ip].account_id == db_pre.accounts@[ip].account_id);
                self.db.lemma_account_index_unique(ip, tx.from@);
                lemma_chain_snoc(
                    db_bump,
                    db_pre,
                    self.db,
                    tx_spec.from,
                    tx_spec.tx_id,
                    tx_spec.actions@.take(k as int),
                    tx_spec.actions@[k as int],
                    now,
                );
                assert(tx_spec.actions@.take(k as int).push(tx_spec.actions@[k as int])
                    =~= tx_spec.actions@.take((k + 1) as int));
            }
            k += 1;
        }
        proof {
            assert(tx_spec.actions@.take(n as int) =~= tx_spec.actions@);
        }

        // ── Commit the DAG bookkeeping ───────────────────────────────────────
        let mut pi: usize = 0;
        let np: usize = tx.parents.len();
        let ghost db_acted = self.db;
        #[verifier::loop_isolation(false)]
        while pi < np
            invariant
                np == tx.parents@.len(),
                pi <= np,
                self.db.wf(),
                self.pow_difficulty == old(self).pow_difficulty,
                forall|j: int|
                    0 <= j < pi ==> !self.db.has_tip(#[trigger] tx.parents@[j]@),
                self.db.accounts == db_acted.accounts,
                self.db.vertices == db_acted.vertices,
                self.db.timelocks == db_acted.timelocks,
                self.db.providers == db_acted.providers,
                self.db.schemas == db_acted.schemas,
                self.db.claims == db_acted.claims,
                self.db.oracle_snapshots == db_acted.oracle_snapshots,
                self.db.oracle_submissions == db_acted.oracle_submissions,
                self.db.next_schema_id_counter == db_acted.next_schema_id_counter,
                self.db.forfeited == db_acted.forfeited,
            decreases np - pi,
        {
            self.db.remove_tip(&tx.parents[pi]);
            pi += 1;
        }
        self.db.add_tip(&tx.tx_id);

        // Depth: genesis sits at 0; otherwise one past the deepest parent.
        let mut depth: u64 = 0;
        let ghost db_committed = self.db;
        if tx.parents.len() > 0 {
            let mut maxd: u64 = 0;
            let mut qi: usize = 0;
            #[verifier::loop_isolation(false)]
            while qi < np
                invariant
                    qi <= np,
                    maxd == spec_max_parent_depth(db_committed, tx.parents@, qi as int),
                decreases np - qi,
            {
                match self.db.get_vertex(&tx.parents[qi]) {
                    Some(v) => {
                        proof {
                            let wi = choose|i: int|
                                0 <= i < self.db.vertices@.len() && self.db.vertices@[i] == *v;
                            self.db.lemma_vertex_index_unique(wi, tx.parents@[qi as int]@);
                        }
                        if v.depth > maxd {
                            maxd = v.depth;
                        }
                    },
                    None => (),
                }
                qi += 1;
            }
            depth = if maxd == u64::MAX {
                u64::MAX
            } else {
                maxd + 1
            };
            proof {
                assert(depth == spec_depth(db_committed, tx_spec));
            }
        }
        let ghost depth_g = depth;

        proof {
            assert(self.db.vertices == db_orig.vertices);
            assert(!self.db.has_vertex(tx.tx_id@));
        }
        proof {
            if tx_spec.parents@.len() > 0 {
                lemma_depth_same_vertices(
                    db_committed,
                    old(self).db,
                    tx_spec.parents@,
                    tx_spec.parents@.len() as int,
                );
            }
            assert(depth == spec_depth(old(self).db, tx_spec));
        }
        let vertex = crate::vertex::Vertex::new(tx, depth, now);
        self.db.put_vertex(vertex);
        proof {
            assert(self.db.vertices@.drop_last() =~= db_orig.vertices@);
            assert(spec_prep_rel(old(self).db, db_bump, tx_spec));
            assert(spec_actions_chain(
                db_bump,
                db_acted,
                tx_spec.from,
                tx_spec.tx_id,
                tx_spec.actions@,
                now,
            ));
            assert(spec_dag_rel(db_acted, self.db, tx_spec, now));
            if n == 1 {
                assert(action_ok(db_bump, tx_spec.from, tx_spec.tx_id, tx_spec.actions@[0], now));
                lemma_action_ok_stable(
                    old(self).db,
                    db_bump,
                    tx_spec.from,
                    tx_spec.tx_id,
                    tx_spec.actions@[0],
                    now,
                );
            }
        }
        Ok(())
    }

    /// The secondary market is not active: listing a lock for sale always
    /// fails and changes nothing.
    pub fn apply_time_lock_sell(&mut self) -> (r: Result<(), ChronxError>)
        requires
            old(self).inv(),
        ensures
            final(self).inv(),
            *final(self) == *old(self),
            r matches Err(e) && e is FeatureNotActive,
    {
        Err(ChronxError::FeatureNotActive)
    }
}

/// The frozen fiat value of a lock at claim-open time: the lock's whole-KX
/// amount times the snapshot price, saturating at the maximum; effectively
/// infinite when no snapshot exists.
pub open spec fn spec_v_claim(db: StateDb, amount: Balance) -> u64 {
    if db.has_snapshot("KX/USD"@) {
        let p = (amount as int / crate::constants::CHRONOS_PER_KX as int) * db.snapshot_of(
            "KX/USD"@,
        ).price_cents;
        if p > u64::MAX {
            u64::MAX
        } else {
            p as u64
        }
    } else {
        u64::MAX
    }
}

/// The lane tag assigned to a claim value under the default thresholds.
pub open spec fn spec_lane_u8(v: u64) -> u8 {
    if v < 100_000 {
        0
    } else if v < 5_000_000 {
        1
    } else {
        2
    }
}

/// Whether `now` is inside the challenge window of the claim on `lock_id`,
/// measured from the lock's reveal time under the default lane thresholds.
pub open spec fn spec_in_challenge_window(db: StateDb, lock_id: Seq<u8>, now: Timestamp) -> bool {
    match db.timelock_of(lock_id).status {
        TimeLockStatus::ClaimRevealed { revealed_at } => now <= revealed_at
            + spec_default_challenge_window(db.claim_of(lock_id).lane),
        _ => false,
    }
}

/// Whether `now` is inside the reveal window of the claim on `lock_id`,
/// measured from the lock's commit time under the default lane thresholds.
pub open spec fn spec_in_reveal_window(db: StateDb, lock_id: Seq<u8>, now: Timestamp) -> bool {
    match db.timelock_of(lock_id).status {
        TimeLockStatus::ClaimCommitted { committed_at } => now <= committed_at
            + spec_default_reveal_window(db.claim_of(lock_id).lane),
        _ => false,
    }
}

/// The default minimum agent bond for a lane tag.
pub open spec fn spec_default_min_bond(lane: u8) -> Balance {
    if lane == 0 {
        10_000_000
    } else if lane == 1 {
        100_000_000
    } else {
        500_000_000
    }
}

/// The default reveal window (seconds) for a lane tag.
pub open spec fn spec_default_reveal_window(lane: u8) -> i64 {
    if lane == 0 {
        604_800
    } else if lane == 1 {
        1_209_600
    } else {
        2_592_000
    }
}

/// The default challenge window (seconds) for a lane tag.
pub open spec fn spec_default_challenge_window(lane: u8) -> i64 {
    if lane == 0 {
        604_800
    } else if lane == 1 {
        1_209_600
    } else {
        1_814_400
    }
}

/// The prices of this pair's submissions that are at most one hour old.
pub open spec fn spec_fresh_prices(
    subs: Seq<crate::claims::OracleSubmission>,
    pair: Seq<char>,
    now: Timestamp,
) -> Seq<u64> {
    subs.filter(|x: crate::claims::OracleSubmission| x.pair@ == pair).filter(
        |x: crate::claims::OracleSubmission| now - x.submitted_at
            <= crate::constants::ORACLE_MAX_AGE_SECS,
    ).map_values(|x: crate::claims::OracleSubmission| x.price_cents)
}

/// Non-decreasing order.
pub open spec fn sorted_u64(s: Seq<u64>) -> bool {
    forall|i: int, j: int| 0 <= i < j < s.len() ==> s[i] <= s[j]
}

/// Sort a price list ascending by insertion, preserving the multiset.
fn sort_u64(v: &Vec<u64>) -> (r: Vec<u64>)
    ensures
        sorted_u64(r@),
        r@.to_multiset() == v@.to_multiset(),
        r@.len() == v@.len(),
{
    let mut out: Vec<u64> = Vec::new();
    let n: usize = v.len();
    let mut i: usize = 0;
    proof {
        assert(v@.take(0) =~= Seq::<u64>::empty());
        Seq::<u64>::empty().to_multiset_ensures();
        assert(out@.to_multiset() =~= v@.take(0).to_multiset());
    }
    while i < n
        invariant
            n == v@.len(),
            i <= n,
            sorted_u64(out@),
            out@.to_multiset() == v@.take(i as int).to_multiset(),
            out@.len() == i,
        decreases n - i,
    {
        let x = v[i];
        let m: usize = out.len();
        let mut k: usize = 0;
        while k < m && out[k] <= x
            invariant
                m == out@.len(),
                k <= m,
                forall|j: int| 0 <= j < k ==> out@[j] <= x,
            decreases m - k,
        {
            k += 1;
        }
        let ghost out0 = out@;
        out.insert(k, x);
        proof {
            assert(sorted_u64(out@)) by {
                assert(forall|j: int| 0 <= j < k ==> out@[j] == out0[j]);
                assert(out@[k as int] == x);
                assert(forall|j: int| k < j < out@.len() ==> out@[j] == out0[j - 1]);
                assert(k < m ==> out0[k as int] > x);
                assert forall|a: int, b: int| 0 <= a < b < out@.len() implies out@[a]
                    <= out@[b] by {
                    if b < k {
                    } else if a < k && b == k {
                    } else if a < k && b > k {
                        assert(out@[b] == out0[b - 1]);
                        assert(out0[b - 1] >= x || b - 1 < k);
                        if b - 1 >= k {
                            assert(k < m);
                            assert(out0[k as int] > x);
                            assert(out0[b - 1] >= out0[k as int]);
                        }
                    } else if a == k {
                        assert(out@[b] == out0[b - 1]);
                        assert(b - 1 >= k);
                        assert(k < m);
                        assert(out0[k as int] > x);
                        assert(out0[b - 1] >= out0[k as int]);
                    } else {
                        assert(out@[a] == out0[a - 1]);
                        assert(out@[b] == out0[b - 1]);
                    }
                }
            }
            lemma_insert_multiset(out0, k as int, x);
            assert(v@.take((i + 1) as int).drop_last() =~= v@.take(i as int));
            v@.take(i as int).to_multiset_ensures();
            assert(v@.take((i + 1) as int) =~= v@.take(i as int).push(x));
            v@.take(i as int).to_multiset_ensures();
        }
        i += 1;
    }
    proof {
        assert(v@.take(n as int) =~= v@);
    }
    out
}

/// Inserting at any position adds the element to the multiset.
proof fn lemma_insert_multiset(s: Seq<u64>, k: int, x: u64)
    requires
        0 <= k <= s.len(),
    ensures
        s.insert(k, x).to_multiset() == s.to_multiset().insert(x),
    decreases s.len(),
{
    broadcast use vstd::multiset::group_multiset_axioms;

    vstd::seq_lib::lemma_multiset_commutative(s.take(k).push(x), s.skip(k));
    vstd::seq_lib::lemma_multiset_commutative(s.take(k), s.skip(k));
    assert(s.insert(k, x) =~= s.take(k).push(x) + s.skip(k));
    assert(s =~= s.take(k) + s.skip(k));
    s.take(k).to_multiset_ensures();
    assert(s.insert(k, x).to_multiset() =~= s.to_multiset().insert(x));
}

/// Everything but accounts and providers is unchanged.
pub open spec fn unchanged_but_accounts_providers(a: StateDb, b: StateDb) -> bool {
    &&& a.vertices == b.vertices
    &&& a.timelocks == b.timelocks
    &&& a.dag_tips == b.dag_tips
    &&& a.next_schema_id_counter == b.next_schema_id_counter
    &&& a.schemas == b.schemas
    &&& a.claims == b.claims
    &&& a.oracle_snapshots == b.oracle_snapshots
    &&& a.oracle_submissions == b.oracle_submissions
    &&& a.forfeited == b.forfeited
}

/// Locks that were terminal keep their exact record; the namespace only
/// grows.
pub open spec fn locks_frozen(a: Seq<TimeLockContract>, b: Seq<TimeLockContract>) -> bool {
    &&& b.len() >= a.len()
    &&& forall|i: int|
        0 <= i < a.len() && (#[trigger] a[i]).status.spec_is_terminal() ==> b[i] == a[i]
}

/// The auth policy a transaction is checked against: a registered key, or
/// the key the transaction installs on an account's first spend.
pub open spec fn spec_effective_policy(a: Account, tx: Transaction) -> AuthPolicy {
    if (a.auth_policy matches AuthPolicy::SingleSig { public_key } && public_key@.len() == 0)
        && tx.sender_public_key is Some && crate::crypto::blake3_of(
        tx.sender_public_key.unwrap()@,
    ) == tx.from@ {
        AuthPolicy::SingleSig { public_key: tx.sender_public_key.unwrap() }
    } else {
        a.auth_policy
    }
}

/// The transaction carries a deadline that has already passed.
pub open spec fn spec_expired(tx: Transaction, now: Timestamp) -> bool {
    tx.expires_at matches Some(exp) && now > exp
}

/// First-spend key registration is consistent: an account with an empty key
/// may only be spent with a transaction whose carried key hashes to its id.
pub open spec fn spec_key_install_ok(a: Account, tx: Transaction) -> bool {
    !((a.auth_policy matches AuthPolicy::SingleSig { public_key } && public_key@.len() == 0)
        && tx.sender_public_key is Some && crate::crypto::blake3_of(tx.sender_public_key.unwrap()@)
        != tx.from@)
}

/// Every gate a transaction passes before its actions run: vertex validity,
/// no duplicate, unexpired, a known sender at the right nonce (with room to
/// advance), consistent key registration, and valid signatures under the
/// effective policy.
pub open spec fn spec_apply_prechecks(s: StateEngine, tx: Transaction, now: Timestamp) -> bool {
    &&& crate::validation::spec_vertex_valid(tx, s.pow_difficulty, s.db)
    &&& !s.db.has_vertex(tx.tx_id@)
    &&& !spec_expired(tx, now)
    &&& s.db.has_account(tx.from@)
    &&& tx.nonce == s.db.account_of(tx.from@).nonce
    &&& tx.nonce < u64::MAX
    &&& spec_key_install_ok(s.db.account_of(tx.from@), tx)
    &&& crate::validation::spec_signatures_valid(
        tx,
        spec_effective_policy(s.db.account_of(tx.from@), tx),
    )
}

/// What acceptance does to the sender before the actions run: the nonce
/// advances by exactly one and the effective key is installed; nothing else
/// in the store moves.
pub open spec fn spec_prep_rel(pre: StateDb, mid: StateDb, tx: Transaction) -> bool {
    &&& pre.has_account(tx.from@)
    &&& mid.accounts@.len() == pre.accounts@.len()
    &&& (forall|j: int|
        0 <= j < pre.accounts@.len() && j != pre.account_index(tx.from@) ==> mid.accounts@[j]
            == pre.accounts@[j])
    &&& {
        let s0 = pre.accounts@[pre.account_index(tx.from@)];
        let s1 = mid.accounts@[pre.account_index(tx.from@)];
        &&& s1.account_id == s0.account_id
        &&& s1.balance == s0.balance
        &&& s1.nonce == tx.nonce + 1
        &&& policy_eqv(s1.auth_policy, spec_effective_policy(s0, tx))
        &&& s1.verifier_stake == s0.verifier_stake
        &&& s1.is_verifier == s0.is_verifier
        &&& s1.recovery_state == s0.recovery_state
        &&& s1.post_recovery_restriction == s0.post_recovery_restriction
        &&& s1.account_version == s0.account_version
        &&& s1.created_at == s0.created_at
        &&& s1.incoming_locks_count == s0.incoming_locks_count
        &&& s1.outgoing_locks_count == s0.outgoing_locks_count
        &&& s1.total_locked_incoming_chronos == s0.total_locked_incoming_chronos
        &&& s1.total_locked_outgoing_chronos == s0.total_locked_outgoing_chronos
    }
    &&& mid.timelocks == pre.timelocks
    &&& mid.vertices == pre.vertices
    &&& mid.dag_tips == pre.dag_tips
    &&& mid.providers == pre.providers
    &&& mid.schemas == pre.schemas
    &&& mid.claims == pre.claims
    &&& mid.oracle_snapshots == pre.oracle_snapshots
    &&& mid.oracle_submissions == pre.oracle_submissions
    &&& mid.next_schema_id_counter == pre.next_schema_id_counter
    &&& mid.forfeited == pre.forfeited
}

/// The DAG bookkeeping after a transaction's actions: the vertex is
/// appended, the new id becomes a tip, and every other namespace is
/// untouched.
pub open spec fn spec_dag_rel(mid: StateDb, post: StateDb, tx: Transaction, now: Timestamp) -> bool {
    &&& post.accounts == mid.accounts
    &&& post.timelocks == mid.timelocks
    &&& post.providers == mid.providers
    &&& post.schemas == mid.schemas
    &&& post.claims == mid.claims
    &&& post.oracle_snapshots == mid.oracle_snapshots
    &&& post.oracle_submissions == mid.oracle_submissions
    &&& post.next_schema_id_counter == mid.next_schema_id_counter
    &&& post.forfeited == mid.forfeited
    &&& post.vertices@.len() == mid.vertices@.len() + 1
    &&& post.vertices@.drop_last() == mid.vertices@
    &&& post.vertices@.last().transaction == tx
    &&& post.vertices@.last().received_at == now
    &&& post.vertices@.last().status is Pending
    &&& post.has_tip(tx.tx_id@)
}

/// Two stores equal everywhere except that some accounts may differ in
/// their nonce and auth policy: the shape the nonce bump and key install
/// leave behind, under which action acceptance is stable.
pub open spec fn spec_bump_similar(a: StateDb, b: StateDb) -> bool {
    &&& b.timelocks == a.timelocks
    &&& b.claims == a.claims
    &&& b.providers == a.providers
    &&& b.schemas == a.schemas
    &&& b.oracle_snapshots == a.oracle_snapshots
    &&& b.oracle_submissions == a.oracle_submissions
    &&& b.next_schema_id_counter == a.next_schema_id_counter
    &&& b.accounts@.len() == a.accounts@.len()
    &&& forall|i: int|
        0 <= i < a.accounts@.len() ==> {
            let x = #[trigger] a.accounts@[i];
            let y = b.accounts@[i];
            &&& x.account_id == y.account_id
            &&& x.balance == y.balance
            &&& x.verifier_stake == y.verifier_stake
            &&& x.is_verifier == y.is_verifier
            &&& x.recovery_state == y.recovery_state
            &&& x.post_recovery_restriction == y.post_recovery_restriction
        }
}

/// The DAG depth a transaction is stored at: 0 for genesis, one past the
/// deepest parent otherwise (saturating).
pub open spec fn spec_depth(db: StateDb, tx: Transaction) -> u64 {
    if tx.parents@.len() == 0 {
        0
    } else {
        let m = spec_max_parent_depth(db, tx.parents@, tx.parents@.len() as int);
        if m == u64::MAX {
            u64::MAX
        } else {
            (m + 1) as u64
        }
    }
}

/// The deepest stored depth among the first `n` parents.
pub open spec fn spec_max_parent_depth(db: StateDb, parents: Seq<TxId>, n: int) -> u64
    decreases n,
{
    if n <= 0 {
        0
    } else {
        let rest = spec_max_parent_depth(db, parents, n - 1);
        let d = if db.has_vertex(parents[n - 1]@) {
            db.vertices@[db.vertex_index(parents[n - 1]@)].depth
        } else {
            0
        };
        if d > rest {
            d
        } else {
            rest
        }
    }
}

/// Two stores with the same vertices agree on parent depths.
proof fn lemma_depth_same_vertices(a: StateDb, b: StateDb, parents: Seq<TxId>, n: int)
    requires
        a.vertices == b.vertices,
        n <= parents.len(),
    ensures
        spec_max_parent_depth(a, parents, n) == spec_max_parent_depth(b, parents, n),
    decreases n,
{
    if n > 0 {
        lemma_depth_same_vertices(a, b, parents, n - 1);
        assert(a.has_vertex(parents[n - 1]@) == b.has_vertex(parents[n - 1]@));
        if a.has_vertex(parents[n - 1]@) {
            let ia = a.vertex_index(parents[n - 1]@);
            let ib = b.vertex_index(parents[n - 1]@);
            assert(0 <= ia < a.vertices@.len() && a.vertices@[ia].transaction.tx_id@ == parents[n
                - 1]@);
            assert(0 <= ib < b.vertices@.len() && b.vertices@[ib].transaction.tx_id@ == parents[n
                - 1]@);
        }
    }
}

/// Structural equivalence of two stores: every record equivalent, every
/// scalar equal.
pub open spec fn db_eqv(a: StateDb, b: StateDb) -> bool {
    &&& a.accounts@.len() == b.accounts@.len()
    &&& forall|i: int|
        0 <= i < a.accounts@.len() ==> account_eqv(
            #[trigger] a.accounts@[i],
            b.accounts@[i],
        )
    &&& a.timelocks@.len() == b.timelocks@.len()
    &&& forall|i: int|
        0 <= i < a.timelocks@.len() ==> crate::timelock::lock_eqv(
            #[trigger] a.timelocks@[i],
            b.timelocks@[i],
        )
    &&& a.providers@.len() == b.providers@.len()
    &&& forall|i: int|
        0 <= i < a.providers@.len() ==> crate::claims::provider_eqv(
            #[trigger] a.providers@[i],
            b.providers@[i],
        )
    &&& a.schemas@.len() == b.schemas@.len()
    &&& forall|i: int|
        0 <= i < a.schemas@.len() ==> crate::claims::schema_eqv(
            #[trigger] a.schemas@[i],
            b.schemas@[i],
        )
    &&& a.claims@.len() == b.claims@.len()
    &&& forall|i: int|
        0 <= i < a.claims@.len() ==> crate::claims::claim_eqv(
            #[trigger] a.claims@[i],
            b.claims@[i],
        )
    &&& a.oracle_snapshots@.len() == b.oracle_snapshots@.len()
    &&& forall|i: int|
        0 <= i < a.oracle_snapshots@.len() ==> crate::claims::snapshot_eqv(
            #[trigger] a.oracle_snapshots@[i],
            b.oracle_snapshots@[i],
        )
    &&& a.oracle_submissions@.len() == b.oracle_submissions@.len()
    &&& forall|i: int|
        0 <= i < a.oracle_submissions@.len() ==> crate::claims::submission_eqv(
            #[trigger] a.oracle_submissions@[i],
            b.oracle_submissions@[i],
        )
    &&& a.vertices == b.vertices
    &&& a.dag_tips == b.dag_tips
    &&& a.next_schema_id_counter == b.next_schema_id_counter
    &&& a.forfeited == b.forfeited
}

/// Equivalence is reflexive.
pub proof fn lemma_db_eqv_refl(a: StateDb)
    ensures
        db_eqv(a, a),
{
}

/// A store equivalent to one satisfying the engine invariant satisfies it
/// too, with the same circulating supply.
pub proof fn lemma_db_eqv_funds(a: StateDb, b: StateDb)
    requires
        db_eqv(a, b),
    ensures
        a.circulating() == b.circulating(),
{
    crate::sums::lemma_sum_by_pointwise(a.accounts@, b.accounts@, |x: Account| account_funds(x));
    crate::sums::lemma_sum_by_pointwise(
        a.timelocks@,
        b.timelocks@,
        |x: TimeLockContract| lock_funds(x),
    );
    crate::sums::lemma_sum_by_pointwise(
        a.claims@,
        b.claims@,
        |x: crate::claims::ClaimState| claim_funds(x),
    );
    crate::sums::lemma_sum_by_pointwise(
        a.providers@,
        b.providers@,
        |x: crate::claims::ProviderRecord| provider_funds(x),
    );
}

/// The backup of the mutable namespaces taken before a transaction's actions.
struct StoreBackup {
    accounts: Vec<Account>,
    timelocks: Vec<TimeLockContract>,
    providers: Vec<crate::claims::ProviderRecord>,
    schemas: Vec<crate::claims::CertificateSchema>,
    claims: Vec<crate::claims::ClaimState>,
    oracle_snapshots: Vec<crate::claims::OracleSnapshot>,
    oracle_submissions: Vec<crate::claims::OracleSubmission>,
    next_schema_id_counter: u64,
    forfeited: u128,
}

/// The backup is record-for-record equivalent to the store it was taken from.
spec fn backup_eqv(bk: StoreBackup, db: StateDb) -> bool {
    &&& bk.accounts@.len() == db.accounts@.len()
    &&& forall|i: int|
        0 <= i < bk.accounts@.len() ==> account_eqv(#[trigger] bk.accounts@[i], db.accounts@[i])
    &&& bk.timelocks@.len() == db.timelocks@.len()
    &&& forall|i: int|
        0 <= i < bk.timelocks@.len() ==> crate::timelock::lock_eqv(
            #[trigger] bk.timelocks@[i],
            db.timelocks@[i],
        )
    &&& bk.providers@.len() == db.providers@.len()
    &&& forall|i: int|
        0 <= i < bk.providers@.len() ==> crate::claims::provider_eqv(
            #[trigger] bk.providers@[i],
            db.providers@[i],
        )
    &&& bk.schemas@.len() == db.schemas@.len()
    &&& forall|i: int|
        0 <= i < bk.schemas@.len() ==> crate::claims::schema_eqv(
            #[trigger] bk.schemas@[i],
            db.schemas@[i],
        )
    &&& bk.claims@.len() == db.claims@.len()
    &&& forall|i: int|
        0 <= i < bk.claims@.len() ==> crate::claims::claim_eqv(
            #[trigger] bk.claims@[i],
            db.claims@[i],
        )
    &&& bk.oracle_snapshots@.len() == db.oracle_snapshots@.len()
    &&& forall|i: int|
        0 <= i < bk.oracle_snapshots@.len() ==> crate::claims::snapshot_eqv(
            #[trigger] bk.oracle_snapshots@[i],
            db.oracle_snapshots@[i],
        )
    &&& bk.oracle_submissions@.len() == db.oracle_submissions@.len()
    &&& forall|i: int|
        0 <= i < bk.oracle_submissions@.len() ==> crate::claims::submission_eqv(
            #[trigger] bk.oracle_submissions@[i],
            db.oracle_submissions@[i],
        )
    &&& bk.next_schema_id_counter == db.next_schema_id_counter
    &&& bk.forfeited == db.forfeited
}

/// Copy the namespaces a transaction's actions may touch.
fn take_backup(db: &StateDb) -> (r: StoreBackup)
    ensures
        backup_eqv(r, *db),
{
    let r = StoreBackup {
        accounts: clone_account_vec(&db.accounts),
        timelocks: clone_lock_vec(&db.timelocks),
        providers: clone_provider_vec(&db.providers),
        schemas: clone_schema_vec(&db.schemas),
        claims: clone_claim_vec(&db.claims),
        oracle_snapshots: clone_snapshot_vec(&db.oracle_snapshots),
        oracle_submissions: clone_submission_vec(&db.oracle_submissions),
        next_schema_id_counter: db.next_schema_id_counter,
        forfeited: db.forfeited,
    };
    r
}

/// Put a backup's namespaces back into the store; vertices and tips are
/// never touched between a backup and its restore.
fn restore_backup(db: &mut StateDb, bk: StoreBackup)
    ensures
        final(db).accounts == bk.accounts,
        final(db).timelocks == bk.timelocks,
        final(db).providers == bk.providers,
        final(db).schemas == bk.schemas,
        final(db).claims == bk.claims,
        final(db).oracle_snapshots == bk.oracle_snapshots,
        final(db).oracle_submissions == bk.oracle_submissions,
        final(db).next_schema_id_counter == bk.next_schema_id_counter,
        final(db).forfeited == bk.forfeited,
        final(db).vertices == old(db).vertices,
        final(db).dag_tips == old(db).dag_tips,
{
    db.accounts = bk.accounts;
    db.timelocks = bk.timelocks;
    db.providers = bk.providers;
    db.schemas = bk.schemas;
    db.claims = bk.claims;
    db.oracle_snapshots = bk.oracle_snapshots;
    db.oracle_submissions = bk.oracle_submissions;
    db.next_schema_id_counter = bk.next_schema_id_counter;
    db.forfeited = bk.forfeited;
}

/// Account ids and nonces are never rewritten in place; the namespace only
/// grows.
pub open spec fn ids_nonces_preserved(a: Seq<Account>, b: Seq<Account>) -> bool {
    &&& b.len() >= a.len()
    &&& forall|i: int|
        0 <= i < a.len() ==> (#[trigger] b[i]).account_id == a[i].account_id && b[i].nonce
            == a[i].nonce
}

/// A store equivalent to a well-formed one is well formed, has the same
/// circulating supply, and keeps every account sane.
proof fn lemma_restore_inv(orig: StateDb, cur: StateDb)
    requires
        db_eqv(cur, orig),
    ensures
        cur.circulating() == orig.circulating(),
        orig.wf() ==> cur.wf(),
        (forall|i: int|
            0 <= i < orig.accounts@.len() ==> account_wf(#[trigger] orig.accounts@[i]))
            ==> (forall|i: int|
            0 <= i < cur.accounts@.len() ==> account_wf(#[trigger] cur.accounts@[i])),
{
    lemma_db_eqv_funds(cur, orig);
    if orig.wf() {
        assert forall|i: int, j: int| 0 <= i < j < cur.accounts@.len() implies cur.accounts@[i]
            .account_id@ != cur.accounts@[j].account_id@ by {
            assert(account_eqv(cur.accounts@[i], orig.accounts@[i]));
            assert(account_eqv(cur.accounts@[j], orig.accounts@[j]));
        }
        assert forall|i: int, j: int| 0 <= i < j < cur.timelocks@.len() implies cur.timelocks@[i]
            .id@ != cur.timelocks@[j].id@ by {
            assert(crate::timelock::lock_eqv(cur.timelocks@[i], orig.timelocks@[i]));
            assert(crate::timelock::lock_eqv(cur.timelocks@[j], orig.timelocks@[j]));
        }
        assert forall|i: int, j: int| 0 <= i < j < cur.providers@.len() implies cur.providers@[i]
            .provider_id@ != cur.providers@[j].provider_id@ by {
            assert(crate::claims::provider_eqv(cur.providers@[i], orig.providers@[i]));
            assert(crate::claims::provider_eqv(cur.providers@[j], orig.providers@[j]));
        }
        assert forall|i: int, j: int| 0 <= i < j < cur.schemas@.len() implies cur.schemas@[i]
            .schema_id != cur.schemas@[j].schema_id by {
            assert(crate::claims::schema_eqv(cur.schemas@[i], orig.schemas@[i]));
            assert(crate::claims::schema_eqv(cur.schemas@[j], orig.schemas@[j]));
        }
        assert forall|i: int, j: int| 0 <= i < j < cur.claims@.len() implies cur.claims@[i]
            .lock_id@ != cur.claims@[j].lock_id@ by {
            assert(crate::claims::claim_eqv(cur.claims@[i], orig.claims@[i]));
            assert(crate::claims::claim_eqv(cur.claims@[j], orig.claims@[j]));
        }
        assert forall|i: int, j: int|
            0 <= i < j < cur.oracle_snapshots@.len() implies cur.oracle_snapshots@[i].pair@
            != cur.oracle_snapshots@[j].pair@ by {
            assert(crate::claims::snapshot_eqv(cur.oracle_snapshots@[i], orig.oracle_snapshots@[i]));
            assert(crate::claims::snapshot_eqv(cur.oracle_snapshots@[j], orig.oracle_snapshots@[j]));
        }
        assert forall|i: int, j: int|
            0 <= i < j < cur.oracle_submissions@.len() implies !(cur.oracle_submissions@[i].pair@
            == cur.oracle_submissions@[j].pair@ && cur.oracle_submissions@[i].submitter@
            == cur.oracle_submissions@[j].submitter@) by {
            assert(crate::claims::submission_eqv(
                cur.oracle_submissions@[i],
                orig.oracle_submissions@[i],
            ));
            assert(crate::claims::submission_eqv(
                cur.oracle_submissions@[j],
                orig.oracle_submissions@[j],
            ));
        }
        assert(cur.wf());
    }
    assert forall|i: int|
        (forall|k: int|
            0 <= k < orig.accounts@.len() ==> account_wf(#[trigger] orig.accounts@[k])) && 0 <= i
            < cur.accounts@.len() implies account_wf(#[trigger] cur.accounts@[i]) by {
        assert(account_eqv(cur.accounts@[i], orig.accounts@[i]));
        assert(account_wf(orig.accounts@[i]));
    }
}

fn clone_account_vec(v: &Vec<Account>) -> (r: Vec<Account>)
    ensures
        r@.len() == v@.len(),
        forall|i: int| 0 <= i < v@.len() ==> account_eqv(#[trigger] r@[i], v@[i]),
{
    let mut out: Vec<Account> = Vec::new();
    let n: usize = v.len();
    let mut i: usize = 0;
    while i < n
        invariant
            n == v@.len(),
            i <= n,
            out@.len() == i,
            forall|j: int| 0 <= j < i ==> account_eqv(#[trigger] out@[j], v@[j]),
        decreases n - i,
    {
        out.push(v[i].clone());
        i += 1;
    }
    out
}

fn clone_lock_vec(v: &Vec<TimeLockContract>) -> (r: Vec<TimeLockContract>)
    ensures
        r@.len() == v@.len(),
        forall|i: int|
            0 <= i < v@.len() ==> crate::timelock::lock_eqv(#[trigger] r@[i], v@[i]),
{
    let mut out: Vec<TimeLockContract> = Vec::new();
    let n: usize = v.len();
    let mut i: usize = 0;
    while i < n
        invariant
            n == v@.len(),
            i <= n,
            out@.len() == i,
            forall|j: int| 0 <= j < i ==> crate::timelock::lock_eqv(#[trigger] out@[j], v@[j]),
        decreases n - i,
    {
        out.push(v[i].clone());
        i += 1;
    }
    out
}

fn clone_provider_vec(v: &Vec<crate::claims::ProviderRecord>) -> (r: Vec<
    crate::claims::ProviderRecord,
>)
    ensures
        r@.len() == v@.len(),
        forall|i: int|
            0 <= i < v@.len() ==> crate::claims::provider_eqv(#[trigger] r@[i], v@[i]),
{
    let mut out: Vec<crate::claims::ProviderRecord> = Vec::new();
    let n: usize = v.len();
    let mut i: usize = 0;
    while i < n
        invariant
            n == v@.len(),
            i <= n,
            out@.len() == i,
            forall|j: int|
                0 <= j < i ==> crate::claims::provider_eqv(#[trigger] out@[j], v@[j]),
        decreases n - i,
    {
        out.push(v[i].clone());
        i += 1;
    }
    out
}

fn clone_schema_vec(v: &Vec<crate::claims::CertificateSchema>) -> (r: Vec<
    crate::claims::CertificateSchema,
>)
    ensures
        r@.len() == v@.len(),
        forall|i: int|
            0 <= i < v@.len() ==> crate::claims::schema_eqv(#[trigger] r@[i], v@[i]),
{
    let mut out: Vec<crate::claims::CertificateSchema> = Vec::new();
    let n: usize = v.len();
    let mut i: usize = 0;
    while i < n
        invariant
            n == v@.len(),
            i <= n,
            out@.len() == i,
            forall|j: int| 0 <= j < i ==> crate::claims::schema_eqv(#[trigger] out@[j], v@[j]),
        decreases n - i,
    {
        out.push(v[i].clone());
        i += 1;
    }
    out
}

fn clone_claim_vec(v: &Vec<crate::claims::ClaimState>) -> (r: Vec<crate::claims::ClaimState>)
    ensures
        r@.len() == v@.len(),
        forall|i: int|
            0 <= i < v@.len() ==> crate::claims::claim_eqv(#[trigger] r@[i], v@[i]),
{
    let mut out: Vec<crate::claims::ClaimState> = Vec::new();
    let n: usize = v.len();
    let mut i: usize = 0;
    while i < n
        invariant
            n == v@.len(),
            i <= n,
            out@.len() == i,
            forall|j: int| 0 <= j < i ==> crate::claims::claim_eqv(#[trigger] out@[j], v@[j]),
        decreases n - i,
    {
        out.push(v[i].clone());
        i += 1;
    }
    out
}

fn clone_snapshot_vec(v: &Vec<crate::claims::OracleSnapshot>) -> (r: Vec<
    crate::claims::OracleSnapshot,
>)
    ensures
        r@.len() == v@.len(),
        forall|i: int|
            0 <= i < v@.len() ==> crate::claims::snapshot_eqv(#[trigger] r@[i], v@[i]),
{
    let mut out: Vec<crate::claims::OracleSnapshot> = Vec::new();
    let n: usize = v.len();
    let mut i: usize = 0;
    while i < n
        invariant
            n == v@.len(),
            i <= n,
            out@.len() == i,
            forall|j: int|
                0 <= j < i ==> crate::claims::snapshot_eqv(#[trigger] out@[j], v@[j]),
        decreases n - i,
    {
        out.push(v[i].clone());
        i += 1;
    }
    out
}

fn clone_submission_vec(v: &Vec<crate::claims::OracleSubmission>) -> (r: Vec<
    crate::claims::OracleSubmission,
>)
    ensures
        r@.len() == v@.len(),
        forall|i: int|
            0 <= i < v@.len() ==> crate::claims::submission_eqv(#[trigger] r@[i], v@[i]),
{
    let mut out: Vec<crate::claims::OracleSubmission> = Vec::new();
    let n: usize = v.len();
    let mut i: usize = 0;
    while i < n
        invariant
            n == v@.len(),
            i <= n,
            out@.len() == i,
            forall|j: int|
                0 <= j < i ==> crate::claims::submission_eqv(#[trigger] out@[j], v@[j]),
        decreases n - i,
    {
        out.push(v[i].clone());
        i += 1;
    }
    out
}


/// A placeholder provider record used while swapping a record out.
fn placeholder_provider(id: &AccountId) -> (r: crate::claims::ProviderRecord) {
    crate::claims::ProviderRecord {
        provider_id: *id,
        public_keys: Vec::new(),
        provider_class: String::new(),
        jurisdictions: Vec::new(),
        status: crate::claims::ProviderStatus::Active,
        registration_bond: 0,
        registered_at: 0,
    }
}

/// A placeholder schema record used while swapping a record out.
fn placeholder_schema(id: u64) -> (r: crate::claims::CertificateSchema) {
    crate::claims::CertificateSchema {
        schema_id: id,
        name: String::new(),
        version: 0,
        required_fields_hash: [0u8; 32],
        provider_class_thresholds: Vec::new(),
        signature_rules: crate::claims::SignatureRules { min_providers: 0, max_cert_age_secs: 0 },
        active: false,
        registered_by: AccountId::from_bytes([0u8; 32]),
        registered_at: 0,
    }
}

/// A placeholder claim used to momentarily swap a record out of the store.
fn placeholder_claim(lock_id: &TxId) -> (r: crate::claims::ClaimState) {
    crate::claims::ClaimState::new(*lock_id, 0, 0, 0)
}

/// A vote with this transaction id is already recorded in either list.
pub open spec fn vote_recorded(rs: RecoveryState, tx_id: Seq<u8>) -> bool {
    (exists|i: int| 0 <= i < rs.votes_approve@.len() && rs.votes_approve@[i]@ == tx_id) || (exists|
        i: int|
        0 <= i < rs.votes_reject@.len() && rs.votes_reject@[i]@ == tx_id)
}

/// An optional key holds exactly these bytes.
pub open spec fn opt_pk_view_eqv(o: Option<DilithiumPublicKey>, bytes: Seq<u8>) -> bool {
    match o {
        Some(k) => k@ == bytes,
        None => false,
    }
}

/// Everything outside the accounts namespace is unchanged.
pub open spec fn unchanged_but_accounts(a: StateDb, b: StateDb) -> bool {
    &&& a.vertices == b.vertices
    &&& a.timelocks == b.timelocks
    &&& a.dag_tips == b.dag_tips
    &&& a.next_schema_id_counter == b.next_schema_id_counter
    &&& a.providers == b.providers
    &&& a.schemas == b.schemas
    &&& a.claims == b.claims
    &&& a.oracle_snapshots == b.oracle_snapshots
    &&& a.oracle_submissions == b.oracle_submissions
    &&& a.forfeited == b.forfeited
}

/// Everything outside accounts and the forfeit counter is unchanged.
pub open spec fn unchanged_but_accounts_forfeited(a: StateDb, b: StateDb) -> bool {
    &&& a.vertices == b.vertices
    &&& a.timelocks == b.timelocks
    &&& a.dag_tips == b.dag_tips
    &&& a.next_schema_id_counter == b.next_schema_id_counter
    &&& a.providers == b.providers
    &&& a.schemas == b.schemas
    &&& a.claims == b.claims
    &&& a.oracle_snapshots == b.oracle_snapshots
    &&& a.oracle_submissions == b.oracle_submissions
}

/// Whether a tx id occurs in a vote list.
fn txid_vec_contains(v: &Vec<TxId>, id: &TxId) -> (r: bool)
    ensures
        r == exists|i: int| 0 <= i < v@.len() && v@[i]@ == id@,
{
    let n: usize = v.len();
    let mut i: usize = 0;
    while i < n
        invariant
            n == v@.len(),
            i <= n,
            forall|j: int| 0 <= j < i ==> v@[j]@ != id@,
        decreases n - i,
    {
        if v[i].same(id) {
            return true;
        }
        i += 1;
    }
    false
}

/// A placeholder lock used to momentarily swap a record out of the store.
fn placeholder_lock(id: &TxId) -> (r: TimeLockContract) {
    TimeLockContract {
        id: *id,
        sender: AccountId::from_bytes([0u8; 32]),
        recipient_key: DilithiumPublicKey(Vec::new()),
        recipient_account_id: AccountId::from_bytes([0u8; 32]),
        amount: 0,
        unlock_at: 0,
        created_at: 0,
        status: TimeLockStatus::Cancelled { cancelled_at: 0 },
        memo: None,
        lock_version: 0,
        claim_policy: None,
        beneficiary_anchor_commitment: None,
        org_identifier: None,
        cancellation_window_secs: None,
        notify_recipient: true,
        tags: None,
        private: false,
        expiry_policy: None,
        split_policy: None,
        claim_attempts_max: None,
        recurring: None,
        extension_data: None,
    }
}

/// The sum of a split policy's basis points.
pub open spec fn spec_bps_total(s: Seq<(AccountId, u16)>) -> int
    decreases s.len(),
{
    if s.len() == 0 {
        0
    } else {
        s[0].1 + spec_bps_total(s.drop_first())
    }
}

/// Sum a split policy's basis points.
fn bps_total(v: &Vec<(AccountId, u16)>) -> (r: u128)
    ensures
        r == spec_bps_total(v@),
{
    let mut total: u128 = 0;
    let n: usize = v.len();
    let mut i: usize = 0;
    proof {
        assert(v@.skip(0) =~= v@);
        lemma_bps_total_bound(v@);
    }
    while i < n
        invariant
            n == v@.len(),
            i <= n,
            total + spec_bps_total(v@.skip(i as int)) == spec_bps_total(v@),
            total <= 65535 * i,
        decreases n - i,
    {
        proof {
            assert(v@.skip(i as int)[0] == v@[i as int]);
            assert(v@.skip(i as int).drop_first() =~= v@.skip((i + 1) as int));
            lemma_bps_total_bound(v@.skip((i + 1) as int));
        }
        total = total + v[i].1 as u128;
        i += 1;
    }
    proof {
        assert(v@.skip(n as int) =~= Seq::<(AccountId, u16)>::empty());
    }
    total
}

proof fn lemma_bps_total_bound(s: Seq<(AccountId, u16)>)
    ensures
        0 <= spec_bps_total(s) <= 65535 * s.len(),
    decreases s.len(),
{
    if s.len() > 0 {
        lemma_bps_total_bound(s.drop_first());
    }
}

/// The ordered validation outcome of a TimeLockCreate: the first failing
/// check's error, or None when every check passes.
pub open spec fn spec_create_err(
    db: StateDb,
    sender: AccountId,
    amount: Balance,
    unlock_at: Timestamp,
    now: Timestamp,
    memo: Option<String>,
    tags: Option<Vec<String>>,
    extension_data: Option<Vec<u8>>,
    cancellation_window_secs: Option<u32>,
    split_policy: Option<SplitPolicy>,
    recurring: Option<RecurringPolicy>,
) -> Option<ChronxError> {
    if amount == 0 {
        Some(ChronxError::ZeroAmount)
    } else if amount < MIN_LOCK_AMOUNT_CHRONOS {
        Some(ChronxError::LockAmountTooSmall { min: MIN_LOCK_AMOUNT_CHRONOS })
    } else if unlock_at <= now {
        Some(ChronxError::UnlockTimestampInPast)
    } else if unlock_at < now + MIN_LOCK_DURATION_SECS {
        Some(ChronxError::LockDurationTooShort { min_secs: MIN_LOCK_DURATION_SECS })
    } else if unlock_at > now + (MAX_LOCK_DURATION_YEARS as int) * 365 * 24 * 3600 {
        Some(ChronxError::LockDurationTooLong { max_years: MAX_LOCK_DURATION_YEARS })
    } else if memo matches Some(m) && spec_str_len(m@) > MAX_MEMO_BYTES {
        Some(ChronxError::MemoTooLong { max: MAX_MEMO_BYTES })
    } else if tags matches Some(t) && t@.len() > MAX_TAGS_PER_LOCK {
        Some(ChronxError::TooManyTags { max: MAX_TAGS_PER_LOCK })
    } else if tags matches Some(t) && exists|i: int|
        0 <= i < t@.len() && spec_str_len(#[trigger] t@[i]@) > MAX_TAG_LENGTH {
        Some(ChronxError::TagTooLong { max: MAX_TAG_LENGTH })
    } else if extension_data matches Some(ed) && ed@.len() > MAX_EXTENSION_DATA_BYTES {
        Some(ChronxError::ExtensionDataTooLarge { max: MAX_EXTENSION_DATA_BYTES })
    } else if cancellation_window_secs matches Some(w) && w > CANCELLATION_WINDOW_MAX_SECS {
        Some(ChronxError::CancellationWindowTooLong { max: CANCELLATION_WINDOW_MAX_SECS })
    } else if spec_split_bad(split_policy) {
        Some(ChronxError::SplitPolicyBasisPointsMismatch { got: spec_split_got(split_policy) })
    } else if recurring matches Some(rp) && spec_recurring_count(rp) > MAX_RECURRING_COUNT {
        Some(ChronxError::RecurringCountTooLarge { max: MAX_RECURRING_COUNT })
    } else if !db.has_account(sender@) {
        Some(ChronxError::UnknownAccount(sender))
    } else if db.account_of(sender@).spec_spendable() < amount {
        Some(
            ChronxError::InsufficientBalance {
                need: amount,
                have: db.account_of(sender@).spec_spendable(),
            },
        )
    } else {
        None
    }
}

/// The byte length of a string, as the executable `len` reports it.
pub open spec fn spec_str_len(s: Seq<char>) -> usize {
    vstd::utf8::encode_utf8(s).len() as usize
}

/// Whether a split policy's basis points fail to sum to exactly 10 000.
pub open spec fn spec_split_bad(o: Option<SplitPolicy>) -> bool {
    match o {
        Some(sp) => spec_bps_total(sp.recipients@) != 10_000,
        None => false,
    }
}

/// The (truncated) basis-point sum reported when a split policy is rejected.
pub open spec fn spec_split_got(o: Option<SplitPolicy>) -> u32 {
    match o {
        Some(sp) => spec_bps_total(sp.recipients@) as u32,
        None => 0,
    }
}

/// The scheduled repetition count of a recurring policy.
pub open spec fn spec_recurring_count(r: RecurringPolicy) -> u32 {
    match r {
        RecurringPolicy::Off => 0,
        RecurringPolicy::Weekly { count } => count,
        RecurringPolicy::Monthly { count } => count,
        RecurringPolicy::Annual { count } => count,
    }
}

/// The lock record written by TimeLockCreate: a fresh version-0 Pending lock
/// holding the action's fields, keyed by the creating transaction.
pub open spec fn is_created_lock(
    l: TimeLockContract,
    tx_id: TxId,
    sender: AccountId,
    recipient: DilithiumPublicKey,
    amount: Balance,
    unlock_at: Timestamp,
    memo: Option<String>,
    cancellation_window_secs: Option<u32>,
    notify_recipient: Option<bool>,
    tags: Option<Vec<String>>,
    private: Option<bool>,
    expiry_policy: Option<ExpiryPolicy>,
    split_policy: Option<SplitPolicy>,
    claim_attempts_max: Option<u8>,
    recurring: Option<RecurringPolicy>,
    extension_data: Option<Vec<u8>>,
    now: Timestamp,
) -> bool {
    &&& l.id == tx_id
    &&& l.sender == sender
    &&& l.recipient_key@ == recipient@
    &&& l.recipient_account_id@ == blake3_of(recipient@)
    &&& l.amount == amount
    &&& l.unlock_at == unlock_at
    &&& l.created_at == now
    &&& l.status is Pending
    &&& opt_str_eqv(l.memo, memo)
    &&& l.lock_version == 0
    &&& l.claim_policy is None
    &&& l.beneficiary_anchor_commitment is None
    &&& l.org_identifier is None
    &&& l.cancellation_window_secs == cancellation_window_secs
    &&& l.notify_recipient == (match notify_recipient {
        Some(b) => b,
        None => true,
    })
    &&& opt_str_vec_eqv(l.tags, tags)
    &&& l.private == (match private {
        Some(b) => b,
        None => false,
    })
    &&& l.expiry_policy == expiry_policy
    &&& opt_split_eqv(l.split_policy, split_policy)
    &&& l.claim_attempts_max == claim_attempts_max
    &&& l.recurring == recurring
    &&& opt_bytes_eqv(l.extension_data, extension_data)
}

} // verus!
