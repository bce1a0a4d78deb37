//! The genesis builder: mints the fixed supply exactly once into an empty
//! store — the public sale balance plus the treasury, humanity, milestone
//! and reserve time-locks — and verifies that the result equals the total
//! supply to the last Chrono.

use vstd::prelude::*;

use crate::account::{Account, AuthPolicy};
use crate::codec::{enc_u32, put_u32};
use crate::constants::{
    CHRONOS_PER_KX, GENESIS_TIMESTAMP, HUMANITY_STAKE_KX, HUMANITY_UNLOCK_TIMESTAMP,
    MILESTONE_2076_KX, MILESTONE_2076_UNLOCK_TIMESTAMP, PROTOCOL_RESERVE_KX,
    PROTOCOL_RESERVE_UNLOCK_TIMESTAMP, PUBLIC_SALE_KX, TOTAL_SUPPLY_CHRONOS,
    TREASURY_RELEASE_COUNT,
};
use crate::crypto::{account_id_from_pubkey, blake3_hash, blake3_of};
use crate::errors::ChronxError;
use crate::schedule::treasury_release_schedule;
use crate::store::StateDb;
use crate::timelock::{TimeLockContract, TimeLockStatus};
use crate::types::{AccountId, Balance, DilithiumPublicKey, Timestamp, TxId};
use vstd::string::StrSliceExecFns;

verus! {

/// Public keys for the three genesis allocations.
pub struct GenesisParams {
    /// Controls the public sale allocation.
    pub public_sale_key: DilithiumPublicKey,
    /// Controls treasury time-lock claims.
    pub treasury_key: DilithiumPublicKey,
    /// Registered for the humanity stake.
    pub humanity_key: DilithiumPublicKey,
}

/// The three accounts seeded at genesis.
pub struct GenesisAccounts {
    /// Receives the public sale allocation.
    pub public_sale: AccountId,
    /// Holds the 100-year treasury time-locks.
    pub treasury: AccountId,
    /// The humanity stake recipient.
    pub humanity: AccountId,
}

/// Derive the three genesis account ids from the configured keys.
pub fn build_accounts(params: &GenesisParams) -> (r: GenesisAccounts)
    ensures
        r.public_sale@ == blake3_of(params.public_sale_key@),
        r.treasury@ == blake3_of(params.treasury_key@),
        r.humanity@ == blake3_of(params.humanity_key@),
{
    GenesisAccounts {
        public_sale: account_id_from_pubkey(params.public_sale_key.0.as_slice()),
        treasury: account_id_from_pubkey(params.treasury_key.0.as_slice()),
        humanity: account_id_from_pubkey(params.humanity_key.0.as_slice()),
    }
}

/// The null address genesis tokens logically originate from.
pub fn null_address() -> (r: AccountId)
    ensures
        forall|i: int| 0 <= i < 32 ==> r@[i] == 0,
{
    let r = AccountId::from_bytes([0u8; 32]);
    proof {
        assert(forall|i: int| 0 <= i < 32 ==> r@[i] == 0);
    }
    r
}

/// Deterministic id for treasury release `k`.
pub fn treasury_lock_id(k: u32) -> (r: TxId)
    ensures
        r@ == blake3_of(vstd::utf8::encode_utf8("treasury_release"@) + enc_u32(k)),
{
    let mut input: Vec<u8> = StrSliceExecFns::as_bytes_vec("treasury_release");
    put_u32(&mut input, k);
    TxId::from_bytes(blake3_hash(input.as_slice()))
}

/// Deterministic id for the humanity stake lock.
pub fn humanity_lock_id() -> (r: TxId)
    ensures
        r@ == blake3_of(vstd::utf8::encode_utf8("humanity_stake_2127"@)),
{
    let input: Vec<u8> = StrSliceExecFns::as_bytes_vec("humanity_stake_2127");
    TxId::from_bytes(blake3_hash(input.as_slice()))
}

/// Deterministic id for the milestone lock.
pub fn milestone_2076_lock_id() -> (r: TxId)
    ensures
        r@ == blake3_of(vstd::utf8::encode_utf8("milestone_stake_2076"@)),
{
    let input: Vec<u8> = StrSliceExecFns::as_bytes_vec("milestone_stake_2076");
    TxId::from_bytes(blake3_hash(input.as_slice()))
}

/// Deterministic id for the protocol reserve lock.
pub fn protocol_reserve_lock_id() -> (r: TxId)
    ensures
        r@ == blake3_of(vstd::utf8::encode_utf8("protocol_reserve_2036"@)),
{
    let input: Vec<u8> = StrSliceExecFns::as_bytes_vec("protocol_reserve_2036");
    TxId::from_bytes(blake3_hash(input.as_slice()))
}

/// Build a genesis-time lock: a Pending legacy lock with no policy fields.
pub fn genesis_lock(
    id: TxId,
    sender: AccountId,
    recipient_key: DilithiumPublicKey,
    recipient_account_id: AccountId,
    amount: Balance,
    unlock_at: Timestamp,
    memo: Option<String>,
) -> (r: TimeLockContract)
    ensures
        r.id == id,
        r.sender == sender,
        r.recipient_key == recipient_key,
        r.recipient_account_id == recipient_account_id,
        r.amount == amount,
        r.unlock_at == unlock_at,
        r.created_at == GENESIS_TIMESTAMP,
        r.status is Pending,
        r.lock_version == 0,
        r.claim_policy is None,
        r.cancellation_window_secs is None,
{
    TimeLockContract {
        id,
        sender,
        recipient_key,
        recipient_account_id,
        amount,
        unlock_at,
        created_at: GENESIS_TIMESTAMP,
        status: TimeLockStatus::Pending,
        memo,
        lock_version: 0,
        claim_policy: None,
        beneficiary_anchor_commitment: None,
        org_identifier: None,
        cancellation_window_secs: None,
        notify_recipient: true,
        tags: None,
        private: false,
        expiry_policy: None,
        split_policy: None,
        claim_attempts_max: None,
        recurring: None,
        extension_data: None,
    }
}

// ── Spec-level genesis identifiers ───────────────────────────────────────────

/// The id of treasury release `k`, as a function of the hash name.
pub open spec fn spec_treasury_lock_id(k: int) -> Seq<u8> {
    blake3_of(vstd::utf8::encode_utf8("treasury_release"@) + enc_u32(k as u32))
}

pub open spec fn spec_humanity_lock_id() -> Seq<u8> {
    blake3_of(vstd::utf8::encode_utf8("humanity_stake_2127"@))
}

pub open spec fn spec_milestone_lock_id() -> Seq<u8> {
    blake3_of(vstd::utf8::encode_utf8("milestone_stake_2076"@))
}

pub open spec fn spec_reserve_lock_id() -> Seq<u8> {
    blake3_of(vstd::utf8::encode_utf8("protocol_reserve_2036"@))
}

/// All the hash-derived genesis identifiers are pairwise distinct: the three
/// account ids and the 103 lock ids. With a sound content hash this always
/// holds; it cannot be proved of an uninterpreted hash, so genesis checks it
/// at run time and success is owed exactly under it.
pub open spec fn spec_genesis_ids_distinct(params: GenesisParams) -> bool {
    &&& blake3_of(params.public_sale_key@) != blake3_of(params.treasury_key@)
    &&& blake3_of(params.public_sale_key@) != blake3_of(params.humanity_key@)
    &&& blake3_of(params.treasury_key@) != blake3_of(params.humanity_key@)
    &&& forall|k1: int, k2: int|
        1 <= k1 < k2 <= TREASURY_RELEASE_COUNT ==> spec_treasury_lock_id(k1)
            != spec_treasury_lock_id(k2)
    &&& forall|k: int|
        1 <= k <= TREASURY_RELEASE_COUNT ==> #[trigger] spec_treasury_lock_id(k)
            != spec_humanity_lock_id() && spec_treasury_lock_id(k) != spec_milestone_lock_id()
            && spec_treasury_lock_id(k) != spec_reserve_lock_id()
    &&& spec_humanity_lock_id() != spec_milestone_lock_id()
    &&& spec_humanity_lock_id() != spec_reserve_lock_id()
    &&& spec_milestone_lock_id() != spec_reserve_lock_id()
}

/// Apply the genesis state to an empty store. This is the one and only
/// place where tokens come into existence: afterwards the circulating
/// supply equals the fixed total exactly, and the engine only moves it.
/// A second application fails, because the store is no longer empty.
pub fn apply_genesis(db: &mut StateDb, params: &GenesisParams) -> (r: Result<
    GenesisAccounts,
    ChronxError,
>)
    requires
        old(db).wf(),
    ensures
        final(db).wf(),
        r is Ok <==> (old(db).is_empty_spec() && old(db).forfeited == 0 && old(
            db,
        ).next_schema_id_counter == 1 && spec_genesis_ids_distinct(*params)),
        (r is Err && (!old(db).is_empty_spec() || old(db).forfeited != 0 || old(
            db,
        ).next_schema_id_counter != 1)) ==> *final(db) == *old(db),
        r matches Ok(accounts) ==> {
            &&& accounts.public_sale@ == blake3_of(params.public_sale_key@)
            &&& accounts.treasury@ == blake3_of(params.treasury_key@)
            &&& accounts.humanity@ == blake3_of(params.humanity_key@)
            &&& final(db).circulating() == TOTAL_SUPPLY_CHRONOS
            &&& final(db).forfeited == 0
            &&& final(db).accounts@.len() == 3
            &&& final(db).has_account(accounts.public_sale@)
            &&& final(db).account_of(accounts.public_sale@).balance == PUBLIC_SALE_KX
                * CHRONOS_PER_KX
            &&& final(db).account_of(accounts.public_sale@).nonce == 0
            &&& final(db).has_account(accounts.treasury@)
            &&& final(db).account_of(accounts.treasury@).balance == 0
            &&& final(db).has_account(accounts.humanity@)
            &&& final(db).account_of(accounts.humanity@).balance == 0
            &&& final(db).timelocks@.len() == TREASURY_RELEASE_COUNT + 3
            &&& (forall|i: int|
                0 <= i < TREASURY_RELEASE_COUNT ==> {
                    let l = #[trigger] final(db).timelocks@[i];
                    &&& l.id@ == spec_treasury_lock_id(i + 1)
                    &&& l.amount == crate::schedule::spec_scheduled_amount(i + 1)
                    &&& l.unlock_at == crate::constants::TREASURY_START_TIMESTAMP + i
                        * crate::schedule::SECONDS_PER_YEAR_AVG
                    &&& l.sender@ == blake3_of(params.treasury_key@)
                    &&& l.recipient_account_id@ == blake3_of(params.treasury_key@)
                    &&& l.recipient_key@ == params.treasury_key@
                })
            &&& {
                let lh = final(db).timelocks@[TREASURY_RELEASE_COUNT as int];
                &&& lh.id@ == spec_humanity_lock_id()
                &&& lh.amount == HUMANITY_STAKE_KX * CHRONOS_PER_KX
                &&& lh.unlock_at == HUMANITY_UNLOCK_TIMESTAMP
                &&& lh.recipient_account_id@ == blake3_of(params.humanity_key@)
            }
            &&& {
                let lm = final(db).timelocks@[TREASURY_RELEASE_COUNT as int + 1];
                &&& lm.id@ == spec_milestone_lock_id()
                &&& lm.amount == MILESTONE_2076_KX * CHRONOS_PER_KX
                &&& lm.unlock_at == MILESTONE_2076_UNLOCK_TIMESTAMP
                &&& lm.recipient_account_id@ == blake3_of(params.humanity_key@)
            }
            &&& {
                let lr = final(db).timelocks@[TREASURY_RELEASE_COUNT as int + 2];
                &&& lr.id@ == spec_reserve_lock_id()
                &&& lr.amount == PROTOCOL_RESERVE_KX * CHRONOS_PER_KX
                &&& lr.unlock_at == PROTOCOL_RESERVE_UNLOCK_TIMESTAMP
                &&& lr.recipient_account_id@ == blake3_of(params.treasury_key@)
            }
            &&& (forall|i: int|
                0 <= i < final(db).timelocks@.len()
                    ==> (#[trigger] final(db).timelocks@[i]).status is Pending)
            &&& (forall|i: int|
                0 <= i < final(db).accounts@.len() ==> crate::engine::account_wf(
                    #[trigger] final(db).accounts@[i],
                ))
            &&& final(db).vertices@.len() == 0
        },
{
    if !db.is_empty() {
        return Err(ChronxError::Storage);
    }
    if db.forfeited != 0 || db.next_schema_id_counter != 1 {
        return Err(ChronxError::Storage);
    }

    let accounts = build_accounts(params);

    // Three distinct key hashes are required; a collision would merge
    // allocations and is rejected outright.
    if accounts.public_sale.same(&accounts.treasury) || accounts.public_sale.same(
        &accounts.humanity,
    ) || accounts.treasury.same(&accounts.humanity) {
        return Err(ChronxError::Storage);
    }

    let ghost db0 = *db;
    proof {
        crate::schedule::lemma_tail_sum_value();
        crate::schedule::lemma_schedule_total();
    }

    // ── 1. Public sale allocation ────────────────────────────────────────────
    let mut public_sale_account = Account::new(
        accounts.public_sale,
        AuthPolicy::SingleSig { public_key: params.public_sale_key.clone() },
    );
    public_sale_account.balance = 7_268_000_000_000_000;
    proof {
        assert(public_sale_account.balance == PUBLIC_SALE_KX * CHRONOS_PER_KX);
    }
    let mut total: u128 = public_sale_account.balance;
    let ghost ps_acct = public_sale_account;
    db.put_account(public_sale_account);
    proof {
        assert(!db0.has_account(ps_acct.account_id@));
        assert(db.accounts@ == db0.accounts@.push(ps_acct));
        crate::sums::lemma_sum_by_push(
            db0.accounts@,
            |a: Account| crate::store::account_funds(a),
            ps_acct,
        );
        assert(db.accounts@[0] == ps_acct);
        db.lemma_account_index_unique(0, accounts.public_sale@);
        assert(crate::sums::sum_by(db.timelocks@, |l: TimeLockContract| crate::store::lock_funds(l))
            == 0);
        assert(crate::sums::sum_by(
            db.claims@,
            |c: crate::claims::ClaimState| crate::store::claim_funds(c),
        ) == 0);
        assert(crate::sums::sum_by(
            db.providers@,
            |pr: crate::claims::ProviderRecord| crate::store::provider_funds(pr),
        ) == 0);
    }

    // ── 2. Treasury account and its 100 annual time-locks ────────────────────
    let treasury_account = Account::new(
        accounts.treasury,
        AuthPolicy::SingleSig { public_key: params.treasury_key.clone() },
    );
    let ghost db1 = *db;
    let ghost tr_acct = treasury_account;
    db.put_account(treasury_account);
    proof {
        assert(forall|i: int|
            0 <= i < db1.accounts@.len() ==> (#[trigger] db1.accounts@[i]).account_id@
                != tr_acct.account_id@);
        assert(!db1.has_account(tr_acct.account_id@));
        assert(db.accounts@ == db1.accounts@.push(tr_acct));
        crate::sums::lemma_sum_by_push(
            db1.accounts@,
            |a: Account| crate::store::account_funds(a),
            tr_acct,
        );
        assert(db.accounts@[0] == ps_acct);
        assert(db.accounts@[1] == tr_acct);
        db.lemma_account_index_unique(0, accounts.public_sale@);
    }

    let schedule = treasury_release_schedule();
    let mut k: usize = 0;
    let ghost db_locks0 = *db;
    #[verifier::loop_isolation(false)]
    while k < schedule.len()
        invariant
            schedule@.len() == TREASURY_RELEASE_COUNT,
            k <= schedule@.len(),
            db.wf(),
            db.accounts == db_locks0.accounts,
            db.timelocks@.len() == k,
            forall|i: int|
                0 <= i < k ==> {
                    let l = #[trigger] db.timelocks@[i];
                    &&& l.id@ == spec_treasury_lock_id(i + 1)
                    &&& l.amount == crate::schedule::spec_scheduled_amount(i + 1)
                    &&& l.unlock_at == crate::constants::TREASURY_START_TIMESTAMP + i
                        * crate::schedule::SECONDS_PER_YEAR_AVG
                    &&& l.sender@ == blake3_of(params.treasury_key@)
                    &&& l.recipient_account_id@ == blake3_of(params.treasury_key@)
                    &&& l.recipient_key@ == params.treasury_key@
                    &&& l.status is Pending
                },
            db.vertices@.len() == 0,
            db.claims@.len() == 0,
            db.providers@.len() == 0,
            db.dag_tips@.len() == 0,
            db.oracle_snapshots@.len() == 0,
            db.oracle_submissions@.len() == 0,
            db.forfeited == 0,
            total == db.circulating(),
            total == PUBLIC_SALE_KX * CHRONOS_PER_KX + crate::schedule::spec_sched_prefix(
                k as int,
            ),
        decreases schedule@.len() - k,
    {
        let release = &schedule[k];
        let lock_id = treasury_lock_id(release.index);
        if db.find_timelock(&lock_id).is_some() {
            // Two hash-derived ids collided; genesis cannot stand.
            proof {
                let j = db.timelock_index(lock_id@);
                db.lemma_timelock_index_unique(db.timelock_index(lock_id@), lock_id@);
                assert(spec_treasury_lock_id(j + 1) == spec_treasury_lock_id(k + 1));
                assert(!spec_genesis_ids_distinct(*params));
            }
            return Err(ChronxError::Storage);
        }
        let amount = release.amount_chronos;
        proof {
            crate::schedule::lemma_tail_sum_monotone(k as int, TREASURY_RELEASE_COUNT as int);
            crate::schedule::lemma_tail_sum_monotone(
                k as int + 1,
                TREASURY_RELEASE_COUNT as int,
            );
            if k >= 1 {
                crate::schedule::lemma_tail_sum_monotone(2, k as int + 1);
            }
        }
        let contract = genesis_lock(
            lock_id,
            accounts.treasury,
            params.treasury_key.clone(),
            accounts.treasury,
            amount,
            release.unlock_at,
            Some(<String as vstd::string::StringExecFns>::from_str("Treasury release")),
        );
        let ghost dbp = *db;
        db.put_timelock(contract);
        proof {
            crate::sums::lemma_sum_by_push(
                dbp.timelocks@,
                |l: TimeLockContract| crate::store::lock_funds(l),
                db.timelocks@[db.timelocks@.len() - 1],
            );
            assert(db.timelocks@.drop_last() =~= dbp.timelocks@);
        }
        total = total + amount;
        k += 1;
    }

    // ── 3. Humanity stake, milestone and reserve locks ───────────────────────
    let humanity_account = Account::new(
        accounts.humanity,
        AuthPolicy::SingleSig { public_key: params.humanity_key.clone() },
    );
    let ghost db2 = *db;
    let ghost hu_acct = humanity_account;
    db.put_account(humanity_account);
    proof {
        assert(forall|i: int|
            0 <= i < db2.accounts@.len() ==> (#[trigger] db2.accounts@[i]).account_id@
                != hu_acct.account_id@);
        assert(!db2.has_account(hu_acct.account_id@));
        assert(db.accounts@ == db2.accounts@.push(hu_acct));
        crate::sums::lemma_sum_by_push(
            db2.accounts@,
            |a: Account| crate::store::account_funds(a),
            hu_acct,
        );
        assert(db.accounts@[0] == ps_acct);
        assert(db.accounts@[1] == tr_acct);
        assert(db.accounts@[2] == hu_acct);
        db.lemma_account_index_unique(0, accounts.public_sale@);
    }

    let specials: [(TxId, Balance, Timestamp); 3] = [
        (humanity_lock_id(), 1_000_000_000_000, HUMANITY_UNLOCK_TIMESTAMP),
        (milestone_2076_lock_id(), 500_000_000_000, MILESTONE_2076_UNLOCK_TIMESTAMP),
        (protocol_reserve_lock_id(), 500_000_000_000, PROTOCOL_RESERVE_UNLOCK_TIMESTAMP),
    ];
    proof {
        assert(HUMANITY_STAKE_KX * CHRONOS_PER_KX == 1_000_000_000_000);
        assert(MILESTONE_2076_KX * CHRONOS_PER_KX == 500_000_000_000);
        assert(PROTOCOL_RESERVE_KX * CHRONOS_PER_KX == 500_000_000_000);
    }
    let mut si: usize = 0;
    let ghost db_sp0 = *db;
    #[verifier::loop_isolation(false)]
    while si < 3
        invariant
            si <= 3,
            db.wf(),
            db.accounts == db_sp0.accounts,
            db.timelocks@.len() == TREASURY_RELEASE_COUNT + si,
            forall|i: int|
                0 <= i < TREASURY_RELEASE_COUNT ==> (#[trigger] db.timelocks@[i])
                    == db_sp0.timelocks@[i],
            si >= 1 ==> {
                let lh = db.timelocks@[TREASURY_RELEASE_COUNT as int];
                &&& lh.id@ == spec_humanity_lock_id()
                &&& lh.amount == 1_000_000_000_000
                &&& lh.unlock_at == HUMANITY_UNLOCK_TIMESTAMP
                &&& lh.recipient_account_id@ == blake3_of(params.humanity_key@)
                &&& lh.status is Pending
            },
            si >= 2 ==> {
                let lm = db.timelocks@[TREASURY_RELEASE_COUNT as int + 1];
                &&& lm.id@ == spec_milestone_lock_id()
                &&& lm.amount == 500_000_000_000
                &&& lm.unlock_at == MILESTONE_2076_UNLOCK_TIMESTAMP
                &&& lm.recipient_account_id@ == blake3_of(params.humanity_key@)
                &&& lm.status is Pending
            },
            si >= 3 ==> {
                let lr = db.timelocks@[TREASURY_RELEASE_COUNT as int + 2];
                &&& lr.id@ == spec_reserve_lock_id()
                &&& lr.amount == 500_000_000_000
                &&& lr.unlock_at == PROTOCOL_RESERVE_UNLOCK_TIMESTAMP
                &&& lr.recipient_account_id@ == blake3_of(params.treasury_key@)
                &&& lr.status is Pending
            },
            db.vertices@.len() == 0,
            db.forfeited == 0,
            total == db.circulating(),
            total == PUBLIC_SALE_KX * CHRONOS_PER_KX + crate::schedule::spec_sched_prefix(
                TREASURY_RELEASE_COUNT as int,
            ) + spec_specials_prefix(si as int),
        decreases 3 - si,
    {
        let (lock_id, amount, unlock_at) = (specials[si].0, specials[si].1, specials[si].2);
        if db.find_timelock(&lock_id).is_some() {
            proof {
                db.lemma_timelock_index_unique(db.timelock_index(lock_id@), lock_id@);
                assert(!spec_genesis_ids_distinct(*params));
            }
            return Err(ChronxError::Storage);
        }
        let (owner, key) = if si == 0 || si == 1 {
            (accounts.humanity, params.humanity_key.clone())
        } else {
            (accounts.treasury, params.treasury_key.clone())
        };
        let contract = genesis_lock(
            lock_id,
            owner,
            key,
            owner,
            amount,
            unlock_at,
            None,
        );
        let ghost dbp = *db;
        db.put_timelock(contract);
        proof {
            crate::sums::lemma_sum_by_push(
                dbp.timelocks@,
                |l: TimeLockContract| crate::store::lock_funds(l),
                db.timelocks@[db.timelocks@.len() - 1],
            );
            assert(db.timelocks@.drop_last() =~= dbp.timelocks@);
        }
        total = total + amount;
        si += 1;
    }

    proof {
        db.lemma_account_index_unique(0, accounts.public_sale@);
        db.lemma_account_index_unique(1, accounts.treasury@);
        db.lemma_account_index_unique(2, accounts.humanity@);
        assert(total == TOTAL_SUPPLY_CHRONOS);
        // All 103 lock ids went in under distinct keys, so the hash-derived
        // names are pairwise distinct.
        let n100 = TREASURY_RELEASE_COUNT as int;
        assert forall|k1: int, k2: int|
            1 <= k1 < k2 <= TREASURY_RELEASE_COUNT implies spec_treasury_lock_id(k1)
            != spec_treasury_lock_id(k2) by {
            assert(db.timelocks@[k1 - 1].id@ == spec_treasury_lock_id(k1));
            assert(db.timelocks@[k2 - 1].id@ == spec_treasury_lock_id(k2));
        }
        assert forall|k: int|
            1 <= k <= TREASURY_RELEASE_COUNT implies #[trigger] spec_treasury_lock_id(k)
            != spec_humanity_lock_id() && spec_treasury_lock_id(k) != spec_milestone_lock_id()
            && spec_treasury_lock_id(k) != spec_reserve_lock_id() by {
            assert(db.timelocks@[k - 1].id@ == spec_treasury_lock_id(k));
            assert(db.timelocks@[n100].id@ == spec_humanity_lock_id());
            assert(db.timelocks@[n100 + 1].id@ == spec_milestone_lock_id());
            assert(db.timelocks@[n100 + 2].id@ == spec_reserve_lock_id());
        }
        assert(db.timelocks@[n100].id@ == spec_humanity_lock_id());
        assert(db.timelocks@[n100 + 1].id@ == spec_milestone_lock_id());
        assert(db.timelocks@[n100 + 2].id@ == spec_reserve_lock_id());
        assert(spec_genesis_ids_distinct(*params));
    }
    // ── Verify supply: everything minted must equal the fixed total ─────────
    if total != TOTAL_SUPPLY_CHRONOS {
        return Err(ChronxError::GenesisSupplyMismatch {
            expected: TOTAL_SUPPLY_CHRONOS,
            got: total,
        });
    }
    Ok(accounts)
}

/// The Chronos held by the first `n` of the three special genesis locks.
pub open spec fn spec_specials_prefix(n: int) -> int {
    if n <= 0 {
        0
    } else if n == 1 {
        1_000_000_000_000
    } else if n == 2 {
        1_500_000_000_000
    } else {
        2_000_000_000_000
    }
}

} // verus!
