//! Read-only helpers over the recovery and verifier state, and the fixed
//! verifier vote threshold.

use vstd::prelude::*;

use crate::account::{Account, AuthPolicy};
use crate::constants::{MIN_VERIFIER_STAKE_CHRONOS, RECOVERY_VERIFIER_THRESHOLD};
use crate::errors::ChronxError;
use crate::store::StateDb;
use crate::types::{AccountId, DilithiumPublicKey};

verus! {

/// The number of verifier approvals required to finalize a recovery.
pub fn required_votes() -> (r: u32)
    ensures
        r == RECOVERY_VERIFIER_THRESHOLD,
{
    RECOVERY_VERIFIER_THRESHOLD
}

/// The equal per-verifier share of a recovery bond split `n` ways.
pub open spec fn spec_fee_share(bond: u128, n: int) -> int {
    bond as int / n
}

/// The payout of the verifier at position `i`: the equal share, plus the
/// rounding remainder for the first verifier.
pub open spec fn spec_fee_payout(bond: u128, n: int, i: int) -> int {
    if i == 0 {
        spec_fee_share(bond, n) + bond as int % n
    } else {
        spec_fee_share(bond, n)
    }
}

/// Saturating addition of a payout to a balance.
pub open spec fn spec_sat_add(a: u128, b: int) -> u128 {
    if a + b > u128::MAX {
        u128::MAX
    } else {
        (a + b) as u128
    }
}

/// Distribute a finalized recovery's bond to the winning verifiers: the bond
/// is split equally, the rounding remainder goes to the first verifier, and
/// each payout is credited (saturating) to that verifier's balance. An empty
/// winner list distributes nothing; if some winner has no account, nothing
/// is credited and a missing account is reported.
pub fn distribute_recovery_fees(
    db: &mut StateDb,
    bond: u128,
    winning_verifiers: &Vec<AccountId>,
) -> (r: Result<(), ChronxError>)
    requires
        old(db).wf(),
        forall|i: int, j: int|
            0 <= i < j < winning_verifiers@.len() ==> winning_verifiers@[i]@
                != winning_verifiers@[j]@,
    ensures
        final(db).wf(),
        r is Ok <==> (forall|i: int|
            0 <= i < winning_verifiers@.len() ==> old(db).has_account(
                #[trigger] winning_verifiers@[i]@,
            )),
        r matches Err(e) ==> *final(db) == *old(db) && (e matches ChronxError::UnknownAccount(a)
            && !old(db).has_account(a@) && (exists|i: int|
            0 <= i < winning_verifiers@.len() && winning_verifiers@[i]@ == a@)),
        r is Ok ==> final(db).accounts@.len() == old(db).accounts@.len(),
        r is Ok ==> (forall|t: int|
            0 <= t < winning_verifiers@.len()
                ==> #[trigger] final(db).accounts@[old(db).account_index(winning_verifiers@[t]@)]
                == (Account {
                balance: spec_sat_add(
                    old(db).accounts@[old(db).account_index(winning_verifiers@[t]@)].balance,
                    spec_fee_payout(bond, winning_verifiers@.len() as int, t),
                ),
                ..old(db).accounts@[old(db).account_index(winning_verifiers@[t]@)]
            })),
        r is Ok ==> (forall|j: int|
            0 <= j < old(db).accounts@.len() && (forall|t: int|
                0 <= t < winning_verifiers@.len() ==> #[trigger] winning_verifiers@[t]@ != old(
                    db,
                ).accounts@[j].account_id@) ==> #[trigger] final(db).accounts@[j] == old(
                db,
            ).accounts@[j]),
        final(db).vertices == old(db).vertices,
        final(db).timelocks == old(db).timelocks,
        final(db).dag_tips == old(db).dag_tips,
        final(db).next_schema_id_counter == old(db).next_schema_id_counter,
        final(db).providers == old(db).providers,
        final(db).schemas == old(db).schemas,
        final(db).claims == old(db).claims,
        final(db).oracle_snapshots == old(db).oracle_snapshots,
        final(db).oracle_submissions == old(db).oracle_submissions,
        final(db).forfeited == old(db).forfeited,
{
    let n: usize = winning_verifiers.len();
    if n == 0 {
        return Ok(());
    }

    // Every winner must have an account before anything is credited.
    let mut i: usize = 0;
    while i < n
        invariant
            *db == *old(db),
            db.wf(),
            n == winning_verifiers@.len(),
            i <= n,
            forall|j: int|
                0 <= j < i ==> db.has_account(#[trigger] winning_verifiers@[j]@),
        decreases n - i,
    {
        if db.find_account(&winning_verifiers[i]).is_none() {
            let missing = winning_verifiers[i];
            return Err(ChronxError::UnknownAccount(missing));
        }
        i += 1;
    }

    let bn: u128 = n as u128;
    let share: u128 = bond / bn;
    let remainder: u128 = bond % bn;
    proof {
        vstd::arithmetic::div_mod::lemma_fundamental_div_mod(bond as int, bn as int);
        vstd::arithmetic::mul::lemma_mul_nonnegative(bn as int - 1, share as int);
        assert(bn as int * share as int == share as int + (bn as int - 1) * share as int)
            by (nonlinear_arith);
        assert(share as int + remainder as int <= bond as int);
    }

    let ghost db0 = *db;
    let mut i: usize = 0;
    while i < n
        invariant
            db.wf(),
            db0.wf(),
            n == winning_verifiers@.len(),
            0 < n,
            i <= n,
            bn == n as u128,
            share as int == bond as int / bn as int,
            remainder as int == bond as int % bn as int,
            share as int + remainder as int <= bond as int,
            forall|i2: int, j2: int|
                0 <= i2 < j2 < winning_verifiers@.len() ==> winning_verifiers@[i2]@
                    != winning_verifiers@[j2]@,
            forall|j: int|
                0 <= j < n ==> db0.has_account(#[trigger] winning_verifiers@[j]@),
            db.accounts@.len() == db0.accounts@.len(),
            forall|j: int|
                0 <= j < db0.accounts@.len() ==> #[trigger] db.accounts@[j].account_id == db0
                    .accounts@[j].account_id,
            forall|t: int|
                0 <= t < i
                    ==> #[trigger] db.accounts@[db0.account_index(winning_verifiers@[t]@)] == (
                Account {
                    balance: spec_sat_add(
                        db0.accounts@[db0.account_index(winning_verifiers@[t]@)].balance,
                        spec_fee_payout(bond, n as int, t),
                    ),
                    ..db0.accounts@[db0.account_index(winning_verifiers@[t]@)]
                }),
            forall|j: int|
                0 <= j < db0.accounts@.len() && (forall|t: int|
                    0 <= t < i ==> #[trigger] winning_verifiers@[t]@ != db0
                        .accounts@[j].account_id@) ==> #[trigger] db.accounts@[j] == db0
                    .accounts@[j],
            db.vertices == db0.vertices,
            db.timelocks == db0.timelocks,
            db.dag_tips == db0.dag_tips,
            db.next_schema_id_counter == db0.next_schema_id_counter,
            db.providers == db0.providers,
            db.schemas == db0.schemas,
            db.claims == db0.claims,
            db.oracle_snapshots == db0.oracle_snapshots,
            db.oracle_submissions == db0.oracle_submissions,
            db.forfeited == db0.forfeited,
        decreases n - i,
    {
        proof {
            assert(db.has_account(winning_verifiers@[i as int]@)) by {
                let j0 = db0.account_index(winning_verifiers@[i as int]@);
                assert(db0.has_account(winning_verifiers@[i as int]@));
                assert(db.accounts@[j0].account_id == db0.accounts@[j0].account_id);
            }
        }
        let ai: usize = match db.find_account(&winning_verifiers[i]) {
            Some(a) => a,
            None => {
                proof {
                    assert(false);
                }
                return Err(ChronxError::UnknownAccount(winning_verifiers[i]));
            },
        };
        proof {
            assert(db0.accounts@[ai as int].account_id@ == winning_verifiers@[i as int]@);
            db0.lemma_account_index_unique(ai as int, winning_verifiers@[i as int]@);
            // The slot has not been credited yet: every earlier winner has a
            // different id.
            assert(db.accounts@[ai as int] == db0.accounts@[ai as int]);
        }

        let payout: u128 = if i == 0 {
            share + remainder
        } else {
            share
        };

        let ghost dbx = *db;
        let mut acc = Account::new(
            AccountId::from_bytes([0u8; 32]),
            AuthPolicy::SingleSig { public_key: DilithiumPublicKey(Vec::new()) },
        );
        db.accounts.set_and_swap(ai, &mut acc);
        let nb: u128 = if acc.balance > u128::MAX - payout {
            u128::MAX
        } else {
            acc.balance + payout
        };
        acc.balance = nb;
        let ghost credited = acc;
        db.accounts.set(ai, acc);
        proof {
            assert(db.accounts@ =~= dbx.accounts@.update(ai as int, credited));
            assert(credited == (Account {
                balance: spec_sat_add(
                    db0.accounts@[ai as int].balance,
                    spec_fee_payout(bond, n as int, i as int),
                ),
                ..db0.accounts@[ai as int]
            }));
            assert forall|t: int| 0 <= t < i + 1 implies #[trigger] db.accounts@[db0.account_index(
                winning_verifiers@[t]@,
            )] == (Account {
                balance: spec_sat_add(
                    db0.accounts@[db0.account_index(winning_verifiers@[t]@)].balance,
                    spec_fee_payout(bond, n as int, t),
                ),
                ..db0.accounts@[db0.account_index(winning_verifiers@[t]@)]
            }) by {
                let jt = db0.account_index(winning_verifiers@[t]@);
                assert(db0.has_account(winning_verifiers@[t]@));
                assert(db0.accounts@[jt].account_id@ == winning_verifiers@[t]@);
                if t < i {
                    assert(jt != ai as int);
                    assert(db.accounts@[jt] == dbx.accounts@[jt]);
                } else {
                    assert(jt == ai as int);
                }
            }
            assert forall|j: int|
                0 <= j < db0.accounts@.len() && (forall|t: int|
                    0 <= t < i + 1 ==> #[trigger] winning_verifiers@[t]@ != db0
                        .accounts@[j].account_id@) implies #[trigger] db.accounts@[j] == db0
                .accounts@[j] by {
                assert(winning_verifiers@[i as int]@ != db0.accounts@[j].account_id@);
                assert(j != ai as int);
                assert(db.accounts@[j] == dbx.accounts@[j]);
            }
            assert forall|i2: int, j2: int|
                0 <= i2 < j2 < db.accounts@.len() implies db.accounts@[i2].account_id@ != db
                .accounts@[j2].account_id@ by {
                assert(db.accounts@[i2].account_id == db0.accounts@[i2].account_id);
                assert(db.accounts@[j2].account_id == db0.accounts@[j2].account_id);
            }
        }
        i += 1;
    }
    Ok(())
}

/// Read-only view over verifier registration state in the store.
pub struct VerifierRegistry<'a> {
    pub db: &'a StateDb,
}

impl<'a> VerifierRegistry<'a> {
    pub fn new(db: &'a StateDb) -> (r: Self)
        ensures
            r.db == db,
    {
        VerifierRegistry { db }
    }

    /// True if `account` is currently a registered verifier.
    pub fn is_registered(&self, account: &AccountId) -> (r: bool)
        requires
            self.db.wf(),
        ensures
            r == (self.db.has_account(account@) && self.db.account_of(account@).is_verifier),
    {
        match self.db.get_account(account) {
            Some(a) => a.is_verifier,
            None => false,
        }
    }

    /// The verifier stake of `account` (0 if absent).
    pub fn stake_of(&self, account: &AccountId) -> (r: u128)
        requires
            self.db.wf(),
        ensures
            r == if self.db.has_account(account@) {
                self.db.account_of(account@).verifier_stake
            } else {
                0
            },
    {
        match self.db.get_account(account) {
            Some(a) => a.verifier_stake,
            None => 0,
        }
    }

    /// True if `account` meets the minimum stake requirement.
    pub fn meets_stake_requirement(&self, account: &AccountId) -> (r: bool)
        requires
            self.db.wf(),
        ensures
            r == (self.db.has_account(account@) && self.db.account_of(account@).verifier_stake
                >= MIN_VERIFIER_STAKE_CHRONOS),
    {
        self.stake_of(account) >= MIN_VERIFIER_STAKE_CHRONOS
    }

    /// The minimum verifier stake in Chronos.
    pub fn min_stake() -> (r: u128)
        ensures
            r == MIN_VERIFIER_STAKE_CHRONOS,
    {
        MIN_VERIFIER_STAKE_CHRONOS
    }
}

/// Read-only view over the recovery state machine.
pub struct RecoveryQuery<'a> {
    pub db: &'a StateDb,
}

impl<'a> RecoveryQuery<'a> {
    pub fn new(db: &'a StateDb) -> (r: Self)
        ensures
            r.db == db,
    {
        RecoveryQuery { db }
    }

    /// True if a recovery is currently in flight for `account`.
    pub fn is_active(&self, account: &AccountId) -> (r: bool)
        requires
            self.db.wf(),
        ensures
            r == (self.db.has_account(account@) && self.db.account_of(
                account@,
            ).recovery_state.active),
    {
        match self.db.get_account(account) {
            Some(a) => a.recovery_state.active,
            None => false,
        }
    }

    /// True if the execution delay has elapsed and enough approvals are in:
    /// the recovery can be finalized now.
    pub fn can_finalize(&self, account: &AccountId, now: i64) -> (r: Result<bool, ChronxError>)
        requires
            self.db.wf(),
        ensures
            match r {
                Ok(b) => self.db.has_account(account@) && {
                    let rs = self.db.account_of(account@).recovery_state;
                    b == (rs.active && (rs.recovery_execute_after matches Some(t) && now >= t)
                        && rs.votes_approve@.len() >= RECOVERY_VERIFIER_THRESHOLD)
                },
                Err(e) => e matches ChronxError::UnknownAccount(a) && a == *account && !self
                    .db.has_account(account@),
            },
    {
        let acc = match self.db.get_account(account) {
            Some(a) => a,
            None => {
                return Err(ChronxError::UnknownAccount(*account));
            },
        };
        if !acc.recovery_state.active {
            return Ok(false);
        }
        let delay_elapsed = match acc.recovery_state.recovery_execute_after {
            Some(t) => now >= t,
            None => false,
        };
        let approved = acc.recovery_state.votes_approve.len()
            >= RECOVERY_VERIFIER_THRESHOLD as usize;
        Ok(delay_elapsed && approved)
    }
}

} // verus!
