//! The state store: typed, namespaced access to all persisted records, held
//! in memory. Commits are atomic by construction — the engine stages its
//! mutations and either all of them or none reach this store.
//!
//! Keys are compared by value (32-byte ids as byte sequences, pairs as
//! character sequences); well-formedness says every namespace's keys are
//! distinct.

use vstd::prelude::*;

use crate::account::{Account, account_eqv};
use crate::claims::{
    CertificateSchema, ClaimState, OracleSnapshot, OracleSubmission, ProviderRecord,
    submission_eqv,
};
use crate::strutil::str_eq;
use crate::sums::sum_by;
use crate::timelock::{TimeLockContract, TimeLockStatus, lock_eqv};
use crate::types::{AccountId, TxId};
use crate::vertex::Vertex;

verus! {

/// The in-memory state store with its ten namespaces.
pub struct StateDb {
    pub accounts: Vec<Account>,
    pub vertices: Vec<Vertex>,
    pub timelocks: Vec<TimeLockContract>,
    pub dag_tips: Vec<TxId>,
    /// The next sequential schema id to allocate.
    pub next_schema_id_counter: u64,
    pub providers: Vec<ProviderRecord>,
    pub schemas: Vec<CertificateSchema>,
    pub claims: Vec<ClaimState>,
    pub oracle_snapshots: Vec<OracleSnapshot>,
    pub oracle_submissions: Vec<OracleSubmission>,
    /// Chronos permanently forfeited by slashes and unreturned bonds
    /// (treasury-bound in a full deployment).
    pub forfeited: u128,
}

// ── Fund measures (supply accounting) ────────────────────────────────────────

/// The Chronos owned by an account record: its balance plus any recovery and
/// challenge bonds currently held against it.
pub open spec fn account_funds(a: Account) -> int {
    a.balance + a.recovery_state.recovery_bond + a.recovery_state.challenge_bond
}

/// The Chronos owned by a lock: its amount while the lock is non-terminal.
pub open spec fn lock_funds(l: TimeLockContract) -> int {
    if l.status.spec_is_terminal() {
        0
    } else {
        l.amount as int
    }
}

/// The Chronos held as claim bonds.
pub open spec fn claim_funds(c: ClaimState) -> int {
    c.commit_bond + c.challenge_bond
}

/// The Chronos held as a provider registration bond.
pub open spec fn provider_funds(p: ProviderRecord) -> int {
    p.registration_bond as int
}

impl StateDb {
    /// Every Chrono in existence: account balances and bonds, non-terminal
    /// lock amounts, claim bonds, provider bonds, and what has been
    /// permanently forfeited. Conservation says this equals the total supply
    /// in every reachable state.
    pub open spec fn circulating(self) -> int {
        sum_by(self.accounts@, |a: Account| account_funds(a)) + sum_by(
            self.timelocks@,
            |l: TimeLockContract| lock_funds(l),
        ) + sum_by(self.claims@, |c: ClaimState| claim_funds(c)) + sum_by(
            self.providers@,
            |p: ProviderRecord| provider_funds(p),
        ) + self.forfeited
    }

    // ── Well-formedness ──────────────────────────────────────────────────────

    /// Keys are distinct in every namespace.
    pub open spec fn wf(self) -> bool {
        &&& forall|i: int, j: int|
            0 <= i < j < self.accounts@.len() ==> self.accounts@[i].account_id@
                != self.accounts@[j].account_id@
        &&& forall|i: int, j: int|
            0 <= i < j < self.vertices@.len() ==> self.vertices@[i].transaction.tx_id@
                != self.vertices@[j].transaction.tx_id@
        &&& forall|i: int, j: int|
            0 <= i < j < self.timelocks@.len() ==> self.timelocks@[i].id@
                != self.timelocks@[j].id@
        &&& forall|i: int, j: int|
            0 <= i < j < self.dag_tips@.len() ==> self.dag_tips@[i]@ != self.dag_tips@[j]@
        &&& forall|i: int, j: int|
            0 <= i < j < self.providers@.len() ==> self.providers@[i].provider_id@
                != self.providers@[j].provider_id@
        &&& forall|i: int, j: int|
            0 <= i < j < self.schemas@.len() ==> self.schemas@[i].schema_id
                != self.schemas@[j].schema_id
        &&& forall|i: int, j: int|
            0 <= i < j < self.claims@.len() ==> self.claims@[i].lock_id@
                != self.claims@[j].lock_id@
        &&& forall|i: int, j: int|
            0 <= i < j < self.oracle_snapshots@.len() ==> self.oracle_snapshots@[i].pair@
                != self.oracle_snapshots@[j].pair@
        &&& forall|i: int, j: int|
            0 <= i < j < self.oracle_submissions@.len() ==> !(
            self.oracle_submissions@[i].pair@ == self.oracle_submissions@[j].pair@
                && self.oracle_submissions@[i].submitter@
                == self.oracle_submissions@[j].submitter@)
    }

    // ── Spec lookups ─────────────────────────────────────────────────────────

    pub open spec fn has_account(self, id: Seq<u8>) -> bool {
        exists|i: int| 0 <= i < self.accounts@.len() && self.accounts@[i].account_id@ == id
    }

    pub open spec fn account_index(self, id: Seq<u8>) -> int {
        choose|i: int| 0 <= i < self.accounts@.len() && self.accounts@[i].account_id@ == id
    }

    pub open spec fn account_of(self, id: Seq<u8>) -> Account {
        self.accounts@[self.account_index(id)]
    }

    pub open spec fn has_vertex(self, id: Seq<u8>) -> bool {
        exists|i: int|
            0 <= i < self.vertices@.len() && self.vertices@[i].transaction.tx_id@ == id
    }

    pub open spec fn vertex_index(self, id: Seq<u8>) -> int {
        choose|i: int|
            0 <= i < self.vertices@.len() && self.vertices@[i].transaction.tx_id@ == id
    }

    pub open spec fn has_timelock(self, id: Seq<u8>) -> bool {
        exists|i: int| 0 <= i < self.timelocks@.len() && self.timelocks@[i].id@ == id
    }

    pub open spec fn timelock_index(self, id: Seq<u8>) -> int {
        choose|i: int| 0 <= i < self.timelocks@.len() && self.timelocks@[i].id@ == id
    }

    pub open spec fn timelock_of(self, id: Seq<u8>) -> TimeLockContract {
        self.timelocks@[self.timelock_index(id)]
    }

    pub open spec fn has_tip(self, id: Seq<u8>) -> bool {
        exists|i: int| 0 <= i < self.dag_tips@.len() && self.dag_tips@[i]@ == id
    }

    pub open spec fn has_provider(self, id: Seq<u8>) -> bool {
        exists|i: int| 0 <= i < self.providers@.len() && self.providers@[i].provider_id@ == id
    }

    pub open spec fn provider_index(self, id: Seq<u8>) -> int {
        choose|i: int| 0 <= i < self.providers@.len() && self.providers@[i].provider_id@ == id
    }

    pub open spec fn provider_of(self, id: Seq<u8>) -> ProviderRecord {
        self.providers@[self.provider_index(id)]
    }

    pub open spec fn has_schema(self, id: u64) -> bool {
        exists|i: int| 0 <= i < self.schemas@.len() && self.schemas@[i].schema_id == id
    }

    pub open spec fn schema_index(self, id: u64) -> int {
        choose|i: int| 0 <= i < self.schemas@.len() && self.schemas@[i].schema_id == id
    }

    pub open spec fn schema_of(self, id: u64) -> CertificateSchema {
        self.schemas@[self.schema_index(id)]
    }

    pub open spec fn has_claim(self, id: Seq<u8>) -> bool {
        exists|i: int| 0 <= i < self.claims@.len() && self.claims@[i].lock_id@ == id
    }

    pub open spec fn claim_index(self, id: Seq<u8>) -> int {
        choose|i: int| 0 <= i < self.claims@.len() && self.claims@[i].lock_id@ == id
    }

    pub open spec fn claim_of(self, id: Seq<u8>) -> ClaimState {
        self.claims@[self.claim_index(id)]
    }

    pub open spec fn has_snapshot(self, pair: Seq<char>) -> bool {
        exists|i: int|
            0 <= i < self.oracle_snapshots@.len() && self.oracle_snapshots@[i].pair@ == pair
    }

    pub open spec fn snapshot_index(self, pair: Seq<char>) -> int {
        choose|i: int|
            0 <= i < self.oracle_snapshots@.len() && self.oracle_snapshots@[i].pair@ == pair
    }

    pub open spec fn snapshot_of(self, pair: Seq<char>) -> OracleSnapshot {
        self.oracle_snapshots@[self.snapshot_index(pair)]
    }

    pub open spec fn has_submission(self, pair: Seq<char>, submitter: Seq<u8>) -> bool {
        exists|i: int|
            0 <= i < self.oracle_submissions@.len() && self.oracle_submissions@[i].pair@ == pair
                && self.oracle_submissions@[i].submitter@ == submitter
    }

    pub open spec fn submission_index(self, pair: Seq<char>, submitter: Seq<u8>) -> int {
        choose|i: int|
            0 <= i < self.oracle_submissions@.len() && self.oracle_submissions@[i].pair@ == pair
                && self.oracle_submissions@[i].submitter@ == submitter
    }

    // ── Construction ─────────────────────────────────────────────────────────

    /// An empty store: no accounts, no vertices, no locks, nothing forfeited.
    pub fn new() -> (r: StateDb)
        ensures
            r.wf(),
            r.accounts@.len() == 0,
            r.vertices@.len() == 0,
            r.timelocks@.len() == 0,
            r.dag_tips@.len() == 0,
            r.next_schema_id_counter == 1,
            r.providers@.len() == 0,
            r.schemas@.len() == 0,
            r.claims@.len() == 0,
            r.oracle_snapshots@.len() == 0,
            r.oracle_submissions@.len() == 0,
            r.forfeited == 0,
            r.circulating() == 0,
    {
        StateDb {
            accounts: Vec::new(),
            vertices: Vec::new(),
            timelocks: Vec::new(),
            dag_tips: Vec::new(),
            next_schema_id_counter: 1,
            providers: Vec::new(),
            schemas: Vec::new(),
            claims: Vec::new(),
            oracle_snapshots: Vec::new(),
            oracle_submissions: Vec::new(),
            forfeited: 0,
        }
    }

    /// The store holds no records at all.
    pub open spec fn is_empty_spec(self) -> bool {
        &&& self.accounts@.len() == 0
        &&& self.vertices@.len() == 0
        &&& self.timelocks@.len() == 0
        &&& self.dag_tips@.len() == 0
        &&& self.providers@.len() == 0
        &&& self.schemas@.len() == 0
        &&& self.claims@.len() == 0
        &&& self.oracle_snapshots@.len() == 0
        &&& self.oracle_submissions@.len() == 0
    }

    /// The store holds no records at all (genesis precondition).
    pub fn is_empty(&self) -> (r: bool)
        ensures
            r == self.is_empty_spec(),
    {
        self.accounts.len() == 0 && self.vertices.len() == 0 && self.timelocks.len() == 0
            && self.dag_tips.len() == 0 && self.providers.len() == 0 && self.schemas.len() == 0
            && self.claims.len() == 0 && self.oracle_snapshots.len() == 0
            && self.oracle_submissions.len() == 0
    }

    // ── Accounts ─────────────────────────────────────────────────────────────

    /// Index of the account with the given id, if any.
    pub fn find_account(&self, id: &AccountId) -> (r: Option<usize>)
        ensures
            match r {
                Some(i) => i < self.accounts@.len() && self.accounts@[i as int].account_id@ == id@,
                None => !self.has_account(id@),
            },
    {
        let n: usize = self.accounts.len();
        let mut i: usize = 0;
        while i < n
            invariant
                n == self.accounts@.len(),
                i <= n,
                forall|j: int| 0 <= j < i ==> self.accounts@[j].account_id@ != id@,
            decreases n - i,
        {
            if self.accounts[i].account_id.same(id) {
                return Some(i);
            }
            i += 1;
        }
        None
    }

    pub fn get_account(&self, id: &AccountId) -> (r: Option<&Account>)
        requires
            self.wf(),
        ensures
            match r {
                Some(a) => self.has_account(id@) && *a == self.account_of(id@) && a.account_id@
                    == id@,
                None => !self.has_account(id@),
            },
    {
        match self.find_account(id) {
            Some(i) => {
                proof {
                    self.lemma_account_index_unique(i as int, id@);
                }
                Some(&self.accounts[i])
            },
            None => None,
        }
    }

    /// With distinct keys, any index holding `id` is `account_index(id)`.
    pub proof fn lemma_account_index_unique(self, i: int, id: Seq<u8>)
        requires
            self.wf(),
            0 <= i < self.accounts@.len(),
            self.accounts@[i].account_id@ == id,
        ensures
            self.has_account(id),
            self.account_index(id) == i,
    {
        assert(self.has_account(id));
        let j = self.account_index(id);
        assert(0 <= j < self.accounts@.len() && self.accounts@[j].account_id@ == id);
    }

    pub fn account_exists(&self, id: &AccountId) -> (r: bool)
        ensures
            r == self.has_account(id@),
    {
        match self.find_account(id) {
            Some(_) => true,
            None => false,
        }
    }

    /// Insert or overwrite the account keyed by its own id.
    pub fn put_account(&mut self, a: Account)
        requires
            old(self).wf(),
        ensures
            final(self).wf(),
            old(self).has_account(a.account_id@) ==> final(self).accounts@
                == old(self).accounts@.update(old(self).account_index(a.account_id@), a),
            !old(self).has_account(a.account_id@) ==> final(self).accounts@
                == old(self).accounts@.push(a),
            final(self).vertices == old(self).vertices,
            final(self).timelocks == old(self).timelocks,
            final(self).dag_tips == old(self).dag_tips,
            final(self).next_schema_id_counter == old(self).next_schema_id_counter,
            final(self).providers == old(self).providers,
            final(self).schemas == old(self).schemas,
            final(self).claims == old(self).claims,
            final(self).oracle_snapshots == old(self).oracle_snapshots,
            final(self).oracle_submissions == old(self).oracle_submissions,
            final(self).forfeited == old(self).forfeited,
    {
        let idx = self.find_account(&a.account_id);
        match idx {
            Some(i) => {
                proof {
                    self.lemma_account_index_unique(i as int, a.account_id@);
                }
                vstd::pervasive::VecAdditionalExecFns::set(&mut self.accounts, i, a);
            },
            None => {
                self.accounts.push(a);
            },
        }
    }

    // ── Vertices ─────────────────────────────────────────────────────────────

    pub fn find_vertex(&self, id: &TxId) -> (r: Option<usize>)
        ensures
            match r {
                Some(i) => i < self.vertices@.len() && self.vertices@[i as int].transaction.tx_id@
                    == id@,
                None => !self.has_vertex(id@),
            },
    {
        let n: usize = self.vertices.len();
        let mut i: usize = 0;
        while i < n
            invariant
                n == self.vertices@.len(),
                i <= n,
                forall|j: int| 0 <= j < i ==> self.vertices@[j].transaction.tx_id@ != id@,
            decreases n - i,
        {
            if self.vertices[i].transaction.tx_id.same(id) {
                return Some(i);
            }
            i += 1;
        }
        None
    }

    /// With distinct keys, any index holding `id` is `vertex_index(id)`.
    pub proof fn lemma_vertex_index_unique(self, i: int, id: Seq<u8>)
        requires
            self.wf(),
            0 <= i < self.vertices@.len(),
            self.vertices@[i].transaction.tx_id@ == id,
        ensures
            self.has_vertex(id),
            self.vertex_index(id) == i,
    {
        assert(self.has_vertex(id));
        let j = self.vertex_index(id);
        assert(0 <= j < self.vertices@.len() && self.vertices@[j].transaction.tx_id@ == id);
    }

    pub fn get_vertex(&self, tx_id: &TxId) -> (r: Option<&Vertex>)
        ensures
            match r {
                Some(v) => self.has_vertex(tx_id@) && v.transaction.tx_id@ == tx_id@ && exists|
                    i: int,
                |
                    0 <= i < self.vertices@.len() && self.vertices@[i] == *v,
                None => !self.has_vertex(tx_id@),
            },
    {
        match self.find_vertex(tx_id) {
            Some(i) => Some(&self.vertices[i]),
            None => None,
        }
    }

    pub fn vertex_exists(&self, tx_id: &TxId) -> (r: bool)
        ensures
            r == self.has_vertex(tx_id@),
    {
        match self.find_vertex(tx_id) {
            Some(_) => true,
            None => false,
        }
    }

    /// Insert a vertex under a fresh TxId.
    pub fn put_vertex(&mut self, v: Vertex)
        requires
            old(self).wf(),
            !old(self).has_vertex(v.transaction.tx_id@),
        ensures
            final(self).wf(),
            final(self).vertices@ == old(self).vertices@.push(v),
            final(self).accounts == old(self).accounts,
            final(self).timelocks == old(self).timelocks,
            final(self).dag_tips == old(self).dag_tips,
            final(self).next_schema_id_counter == old(self).next_schema_id_counter,
            final(self).providers == old(self).providers,
            final(self).schemas == old(self).schemas,
            final(self).claims == old(self).claims,
            final(self).oracle_snapshots == old(self).oracle_snapshots,
            final(self).oracle_submissions == old(self).oracle_submissions,
            final(self).forfeited == old(self).forfeited,
    {
        self.vertices.push(v);
    }

    // ── Time-locks ───────────────────────────────────────────────────────────

    pub fn find_timelock(&self, id: &TxId) -> (r: Option<usize>)
        ensures
            match r {
                Some(i) => i < self.timelocks@.len() && self.timelocks@[i as int].id@ == id@,
                None => !self.has_timelock(id@),
            },
    {
        let n: usize = self.timelocks.len();
        let mut i: usize = 0;
        while i < n
            invariant
                n == self.timelocks@.len(),
                i <= n,
                forall|j: int| 0 <= j < i ==> self.timelocks@[j].id@ != id@,
            decreases n - i,
        {
            if self.timelocks[i].id.same(id) {
                return Some(i);
            }
            i += 1;
        }
        None
    }

    /// With distinct keys, any index holding `id` is `timelock_index(id)`.
    pub proof fn lemma_timelock_index_unique(self, i: int, id: Seq<u8>)
        requires
            self.wf(),
            0 <= i < self.timelocks@.len(),
            self.timelocks@[i].id@ == id,
        ensures
            self.has_timelock(id),
            self.timelock_index(id) == i,
    {
        assert(self.has_timelock(id));
        let j = self.timelock_index(id);
        assert(0 <= j < self.timelocks@.len() && self.timelocks@[j].id@ == id);
    }

    pub fn get_timelock(&self, id: &TxId) -> (r: Option<&TimeLockContract>)
        requires
            self.wf(),
        ensures
            match r {
                Some(l) => self.has_timelock(id@) && *l == self.timelock_of(id@) && l.id@ == id@,
                None => !self.has_timelock(id@),
            },
    {
        match self.find_timelock(id) {
            Some(i) => {
                proof {
                    self.lemma_timelock_index_unique(i as int, id@);
                }
                Some(&self.timelocks[i])
            },
            None => None,
        }
    }

    /// Insert or overwrite the lock keyed by its own id.
    pub fn put_timelock(&mut self, l: TimeLockContract)
        requires
            old(self).wf(),
        ensures
            final(self).wf(),
            old(self).has_timelock(l.id@) ==> final(self).timelocks@
                == old(self).timelocks@.update(old(self).timelock_index(l.id@), l),
            !old(self).has_timelock(l.id@) ==> final(self).timelocks@
                == old(self).timelocks@.push(l),
            final(self).accounts == old(self).accounts,
            final(self).vertices == old(self).vertices,
            final(self).dag_tips == old(self).dag_tips,
            final(self).next_schema_id_counter == old(self).next_schema_id_counter,
            final(self).providers == old(self).providers,
            final(self).schemas == old(self).schemas,
            final(self).claims == old(self).claims,
            final(self).oracle_snapshots == old(self).oracle_snapshots,
            final(self).oracle_submissions == old(self).oracle_submissions,
            final(self).forfeited == old(self).forfeited,
    {
        let idx = self.find_timelock(&l.id);
        match idx {
            Some(i) => {
                proof {
                    self.lemma_timelock_index_unique(i as int, l.id@);
                }
                vstd::pervasive::VecAdditionalExecFns::set(&mut self.timelocks, i, l);
            },
            None => {
                self.timelocks.push(l);
            },
        }
    }

    /// All locks whose registered recipient is `recipient_id`, as copies, in
    /// store order.
    pub fn iter_timelocks_for_recipient(&self, recipient_id: &AccountId) -> (r: Vec<
        TimeLockContract,
    >)
        ensures
            ({
                let m = self.timelocks@.filter(
                    |l: TimeLockContract| l.recipient_account_id@ == recipient_id@,
                );
                r@.len() == m.len() && forall|i: int| 0 <= i < m.len() ==> lock_eqv(r@[i], m[i])
            }),
    {
        let ghost pred = |l: TimeLockContract| l.recipient_account_id@ == recipient_id@;
        let mut out: Vec<TimeLockContract> = Vec::new();
        let n: usize = self.timelocks.len();
        let mut i: usize = 0;
        #[verifier::loop_isolation(false)]
        while i < n
            invariant
                n == self.timelocks@.len(),
                i <= n,
                ({
                    let m = self.timelocks@.take(i as int).filter(pred);
                    out@.len() == m.len() && forall|k: int|
                        0 <= k < m.len() ==> lock_eqv(out@[k], m[k])
                }),
            decreases n - i,
        {
            proof {
                let t1 = self.timelocks@.take((i + 1) as int);
                let t0 = self.timelocks@.take(i as int);
                assert(t1.drop_last() =~= t0);
                assert(t1.last() == self.timelocks@[i as int]);
                reveal_with_fuel(Seq::<TimeLockContract>::filter, 2);
                if pred(self.timelocks@[i as int]) {
                    assert(t1.filter(pred) == t0.filter(pred).push(self.timelocks@[i as int]));
                } else {
                    assert(t1.filter(pred) == t0.filter(pred));
                }
            }
            if self.timelocks[i].recipient_account_id.same(recipient_id) {
                out.push(self.timelocks[i].clone());
            }
            i += 1;
        }
        proof {
            assert(self.timelocks@.take(n as int) =~= self.timelocks@);
        }
        out
    }

    /// All locks whose sender is `sender_id`, as copies, in store order.
    pub fn iter_timelocks_for_sender(&self, sender_id: &AccountId) -> (r: Vec<TimeLockContract>)
        ensures
            ({
                let m = self.timelocks@.filter(|l: TimeLockContract| l.sender@ == sender_id@);
                r@.len() == m.len() && forall|i: int| 0 <= i < m.len() ==> lock_eqv(r@[i], m[i])
            }),
    {
        let ghost pred = |l: TimeLockContract| l.sender@ == sender_id@;
        let mut out: Vec<TimeLockContract> = Vec::new();
        let n: usize = self.timelocks.len();
        let mut i: usize = 0;
        #[verifier::loop_isolation(false)]
        while i < n
            invariant
                n == self.timelocks@.len(),
                i <= n,
                ({
                    let m = self.timelocks@.take(i as int).filter(pred);
                    out@.len() == m.len() && forall|k: int|
                        0 <= k < m.len() ==> lock_eqv(out@[k], m[k])
                }),
            decreases n - i,
        {
            proof {
                let t1 = self.timelocks@.take((i + 1) as int);
                let t0 = self.timelocks@.take(i as int);
                assert(t1.drop_last() =~= t0);
                assert(t1.last() == self.timelocks@[i as int]);
                reveal_with_fuel(Seq::<TimeLockContract>::filter, 2);
                if pred(self.timelocks@[i as int]) {
                    assert(t1.filter(pred) == t0.filter(pred).push(self.timelocks@[i as int]));
                } else {
                    assert(t1.filter(pred) == t0.filter(pred));
                }
            }
            if self.timelocks[i].sender.same(sender_id) {
                out.push(self.timelocks[i].clone());
            }
            i += 1;
        }
        proof {
            assert(self.timelocks@.take(n as int) =~= self.timelocks@);
        }
        out
    }

    /// Every lock in the store, as copies, in store order.
    pub fn iter_all_timelocks(&self) -> (r: Vec<TimeLockContract>)
        ensures
            r@.len() == self.timelocks@.len(),
            forall|i: int| 0 <= i < r@.len() ==> lock_eqv(r@[i], self.timelocks@[i]),
    {
        let mut out: Vec<TimeLockContract> = Vec::new();
        let n: usize = self.timelocks.len();
        let mut i: usize = 0;
        while i < n
            invariant
                n == self.timelocks@.len(),
                i <= n,
                out@.len() == i,
                forall|k: int| 0 <= k < i ==> lock_eqv(out@[k], self.timelocks@[k]),
            decreases n - i,
        {
            out.push(self.timelocks[i].clone());
            i += 1;
        }
        out
    }

    pub fn count_accounts(&self) -> (r: u64)
        ensures
            r == self.accounts@.len(),
    {
        self.accounts.len() as u64
    }

    pub fn count_timelocks(&self) -> (r: u64)
        ensures
            r == self.timelocks@.len(),
    {
        self.timelocks.len() as u64
    }

    pub fn count_vertices(&self) -> (r: u64)
        ensures
            r == self.vertices@.len(),
    {
        self.vertices.len() as u64
    }

    // ── DAG tips ─────────────────────────────────────────────────────────────

    pub fn find_tip(&self, id: &TxId) -> (r: Option<usize>)
        ensures
            match r {
                Some(i) => i < self.dag_tips@.len() && self.dag_tips@[i as int]@ == id@,
                None => !self.has_tip(id@),
            },
    {
        let n: usize = self.dag_tips.len();
        let mut i: usize = 0;
        while i < n
            invariant
                n == self.dag_tips@.len(),
                i <= n,
                forall|j: int| 0 <= j < i ==> self.dag_tips@[j]@ != id@,
            decreases n - i,
        {
            if self.dag_tips[i].same(id) {
                return Some(i);
            }
            i += 1;
        }
        None
    }

    /// Add a tip (set semantics: no effect when already present).
    pub fn add_tip(&mut self, tx_id: &TxId)
        requires
            old(self).wf(),
        ensures
            final(self).wf(),
            final(self).has_tip(tx_id@),
            old(self).has_tip(tx_id@) ==> final(self).dag_tips == old(self).dag_tips,
            !old(self).has_tip(tx_id@) ==> final(self).dag_tips@ == old(self).dag_tips@.push(
                *tx_id,
            ),
            final(self).accounts == old(self).accounts,
            final(self).vertices == old(self).vertices,
            final(self).timelocks == old(self).timelocks,
            final(self).next_schema_id_counter == old(self).next_schema_id_counter,
            final(self).providers == old(self).providers,
            final(self).schemas == old(self).schemas,
            final(self).claims == old(self).claims,
            final(self).oracle_snapshots == old(self).oracle_snapshots,
            final(self).oracle_submissions == old(self).oracle_submissions,
            final(self).forfeited == old(self).forfeited,
    {
        match self.find_tip(tx_id) {
            Some(i) => {
                proof {
                    assert(self.dag_tips@[i as int]@ == tx_id@);
                }
            },
            None => {
                self.dag_tips.push(*tx_id);
                proof {
                    assert(self.dag_tips@[self.dag_tips@.len() - 1]@ == tx_id@);
                }
            },
        }
    }

    /// Remove a tip if present.
    pub fn remove_tip(&mut self, tx_id: &TxId)
        requires
            old(self).wf(),
        ensures
            final(self).wf(),
            !final(self).has_tip(tx_id@),
            final(self).dag_tips@.to_multiset() == if old(self).has_tip(tx_id@) {
                old(self).dag_tips@.to_multiset().remove(
                    old(self).dag_tips@[choose|i: int|
                        0 <= i < old(self).dag_tips@.len() && old(self).dag_tips@[i]@ == tx_id@],
                )
            } else {
                old(self).dag_tips@.to_multiset()
            },
            forall|t: Seq<u8>| t != tx_id@ ==> old(self).has_tip(t) == final(self).has_tip(t),
            final(self).accounts == old(self).accounts,
            final(self).vertices == old(self).vertices,
            final(self).timelocks == old(self).timelocks,
            final(self).next_schema_id_counter == old(self).next_schema_id_counter,
            final(self).providers == old(self).providers,
            final(self).schemas == old(self).schemas,
            final(self).claims == old(self).claims,
            final(self).oracle_snapshots == old(self).oracle_snapshots,
            final(self).oracle_submissions == old(self).oracle_submissions,
            final(self).forfeited == old(self).forfeited,
    {
        match self.find_tip(tx_id) {
            Some(i) => {
                proof {
                    let j = choose|j: int|
                        0 <= j < self.dag_tips@.len() && self.dag_tips@[j]@ == tx_id@;
                    assert(self.dag_tips@[i as int]@ == tx_id@);
                    assert(j == i as int);
                    broadcast use vstd::seq_lib::group_seq_properties;
                }
                let removed = self.dag_tips.swap_remove(i);
                proof {
                    let tips = old(self).dag_tips@;
                    assert(self.dag_tips@ =~= tips.update(
                        i as int,
                        tips[tips.len() - 1],
                    ).drop_last());
                    lemma_swap_remove_multiset(tips, i as int);
                    assert forall|t: Seq<u8>| t != tx_id@ implies old(self).has_tip(t)
                        == self.has_tip(t) by {
                        lemma_swap_remove_membership(tips, i as int, t);
                        assert(old(self).has_tip(t) == seq_has_id(tips, t));
                        assert(self.has_tip(t) == seq_has_id(
                            tips.update(i as int, tips[tips.len() - 1]).drop_last(),
                            t,
                        ));
                    }
                    assert forall|k: int| 0 <= k < self.dag_tips@.len() implies self.dag_tips@[k]@
                        != tx_id@ by {
                        if k < tips.len() - 1 && k != i as int {
                            assert(self.dag_tips@[k] == tips[k]);
                        }
                    }
                }
            },
            None => (),
        }
    }

    /// The current tips, as copies.
    pub fn get_tips(&self) -> (r: Vec<TxId>)
        ensures
            r@ == self.dag_tips@,
    {
        crate::account::clone_txid_vec(&self.dag_tips)
    }

    // ── Schema-id counter ────────────────────────────────────────────────────

    /// Allocate the next sequential schema id.
    pub fn next_schema_id(&mut self) -> (r: Result<u64, crate::errors::ChronxError>)
        requires
            old(self).wf(),
        ensures
            final(self).wf(),
            match r {
                Ok(id) => id == old(self).next_schema_id_counter
                    && final(self).next_schema_id_counter == old(self).next_schema_id_counter + 1
                    && old(self).next_schema_id_counter < u64::MAX,
                Err(_) => old(self).next_schema_id_counter == u64::MAX
                    && final(self).next_schema_id_counter == old(self).next_schema_id_counter,
            },
            final(self).accounts == old(self).accounts,
            final(self).vertices == old(self).vertices,
            final(self).timelocks == old(self).timelocks,
            final(self).dag_tips == old(self).dag_tips,
            final(self).providers == old(self).providers,
            final(self).schemas == old(self).schemas,
            final(self).claims == old(self).claims,
            final(self).oracle_snapshots == old(self).oracle_snapshots,
            final(self).oracle_submissions == old(self).oracle_submissions,
            final(self).forfeited == old(self).forfeited,
    {
        if self.next_schema_id_counter == u64::MAX {
            return Err(crate::errors::ChronxError::Storage);
        }
        let id = self.next_schema_id_counter;
        self.next_schema_id_counter = id + 1;
        Ok(id)
    }

    // ── Providers ────────────────────────────────────────────────────────────

    pub fn find_provider(&self, id: &AccountId) -> (r: Option<usize>)
        ensures
            match r {
                Some(i) => i < self.providers@.len() && self.providers@[i as int].provider_id@
                    == id@,
                None => !self.has_provider(id@),
            },
    {
        let n: usize = self.providers.len();
        let mut i: usize = 0;
        while i < n
            invariant
                n == self.providers@.len(),
                i <= n,
                forall|j: int| 0 <= j < i ==> self.providers@[j].provider_id@ != id@,
            decreases n - i,
        {
            if self.providers[i].provider_id.same(id) {
                return Some(i);
            }
            i += 1;
        }
        None
    }

    /// With distinct keys, any index holding `id` is `provider_index(id)`.
    pub proof fn lemma_provider_index_unique(self, i: int, id: Seq<u8>)
        requires
            self.wf(),
            0 <= i < self.providers@.len(),
            self.providers@[i].provider_id@ == id,
        ensures
            self.has_provider(id),
            self.provider_index(id) == i,
    {
        assert(self.has_provider(id));
        let j = self.provider_index(id);
        assert(0 <= j < self.providers@.len() && self.providers@[j].provider_id@ == id);
    }

    pub fn get_provider(&self, id: &AccountId) -> (r: Option<&ProviderRecord>)
        requires
            self.wf(),
        ensures
            match r {
                Some(p) => self.has_provider(id@) && *p == self.provider_of(id@)
                    && p.provider_id@ == id@,
                None => !self.has_provider(id@),
            },
    {
        match self.find_provider(id) {
            Some(i) => {
                proof {
                    self.lemma_provider_index_unique(i as int, id@);
                }
                Some(&self.providers[i])
            },
            None => None,
        }
    }

    /// Insert or overwrite the provider keyed by its own id.
    pub fn put_provider(&mut self, p: ProviderRecord)
        requires
            old(self).wf(),
        ensures
            final(self).wf(),
            old(self).has_provider(p.provider_id@) ==> final(self).providers@
                == old(self).providers@.update(old(self).provider_index(p.provider_id@), p),
            !old(self).has_provider(p.provider_id@) ==> final(self).providers@
                == old(self).providers@.push(p),
            final(self).accounts == old(self).accounts,
            final(self).vertices == old(self).vertices,
            final(self).timelocks == old(self).timelocks,
            final(self).dag_tips == old(self).dag_tips,
            final(self).next_schema_id_counter == old(self).next_schema_id_counter,
            final(self).schemas == old(self).schemas,
            final(self).claims == old(self).claims,
            final(self).oracle_snapshots == old(self).oracle_snapshots,
            final(self).oracle_submissions == old(self).oracle_submissions,
            final(self).forfeited == old(self).forfeited,
    {
        let idx = self.find_provider(&p.provider_id);
        match idx {
            Some(i) => {
                proof {
                    self.lemma_provider_index_unique(i as int, p.provider_id@);
                }
                vstd::pervasive::VecAdditionalExecFns::set(&mut self.providers, i, p);
            },
            None => {
                self.providers.push(p);
            },
        }
    }

    /// Every provider record, as copies, in store order.
    pub fn iter_providers(&self) -> (r: Vec<ProviderRecord>)
        ensures
            r@.len() == self.providers@.len(),
            forall|i: int|
                0 <= i < r@.len() ==> crate::claims::provider_eqv(r@[i], self.providers@[i]),
    {
        let mut out: Vec<ProviderRecord> = Vec::new();
        let n: usize = self.providers.len();
        let mut i: usize = 0;
        while i < n
            invariant
                n == self.providers@.len(),
                i <= n,
                out@.len() == i,
                forall|k: int|
                    0 <= k < i ==> crate::claims::provider_eqv(out@[k], self.providers@[k]),
            decreases n - i,
        {
            out.push(self.providers[i].clone());
            i += 1;
        }
        out
    }

    // ── Schemas ──────────────────────────────────────────────────────────────

    pub fn find_schema(&self, id: u64) -> (r: Option<usize>)
        ensures
            match r {
                Some(i) => i < self.schemas@.len() && self.schemas@[i as int].schema_id == id,
                None => !self.has_schema(id),
            },
    {
        let n: usize = self.schemas.len();
        let mut i: usize = 0;
        while i < n
            invariant
                n == self.schemas@.len(),
                i <= n,
                forall|j: int| 0 <= j < i ==> self.schemas@[j].schema_id != id,
            decreases n - i,
        {
            if self.schemas[i].schema_id == id {
                return Some(i);
            }
            i += 1;
        }
        None
    }

    /// With distinct keys, any index holding `id` is `schema_index(id)`.
    pub proof fn lemma_schema_index_unique(self, i: int, id: u64)
        requires
            self.wf(),
            0 <= i < self.schemas@.len(),
            self.schemas@[i].schema_id == id,
        ensures
            self.has_schema(id),
            self.schema_index(id) == i,
    {
        assert(self.has_schema(id));
        let j = self.schema_index(id);
        assert(0 <= j < self.schemas@.len() && self.schemas@[j].schema_id == id);
    }

    pub fn get_schema(&self, id: u64) -> (r: Option<&CertificateSchema>)
        requires
            self.wf(),
        ensures
            match r {
                Some(s) => self.has_schema(id) && *s == self.schema_of(id) && s.schema_id == id,
                None => !self.has_schema(id),
            },
    {
        match self.find_schema(id) {
            Some(i) => {
                proof {
                    self.lemma_schema_index_unique(i as int, id);
                }
                Some(&self.schemas[i])
            },
            None => None,
        }
    }

    /// Insert or overwrite the schema keyed by its own id.
    pub fn put_schema(&mut self, s: CertificateSchema)
        requires
            old(self).wf(),
        ensures
            final(self).wf(),
            old(self).has_schema(s.schema_id) ==> final(self).schemas@
                == old(self).schemas@.update(old(self).schema_index(s.schema_id), s),
            !old(self).has_schema(s.schema_id) ==> final(self).schemas@
                == old(self).schemas@.push(s),
            final(self).accounts == old(self).accounts,
            final(self).vertices == old(self).vertices,
            final(self).timelocks == old(self).timelocks,
            final(self).dag_tips == old(self).dag_tips,
            final(self).next_schema_id_counter == old(self).next_schema_id_counter,
            final(self).providers == old(self).providers,
            final(self).claims == old(self).claims,
            final(self).oracle_snapshots == old(self).oracle_snapshots,
            final(self).oracle_submissions == old(self).oracle_submissions,
            final(self).forfeited == old(self).forfeited,
    {
        let idx = self.find_schema(s.schema_id);
        match idx {
            Some(i) => {
                proof {
                    self.lemma_schema_index_unique(i as int, s.schema_id);
                }
                vstd::pervasive::VecAdditionalExecFns::set(&mut self.schemas, i, s);
            },
            None => {
                self.schemas.push(s);
            },
        }
    }

    /// Every schema record, as copies, in store order.
    pub fn iter_schemas(&self) -> (r: Vec<CertificateSchema>)
        ensures
            r@.len() == self.schemas@.len(),
            forall|i: int|
                0 <= i < r@.len() ==> crate::claims::schema_eqv(r@[i], self.schemas@[i]),
    {
        let mut out: Vec<CertificateSchema> = Vec::new();
        let n: usize = self.schemas.len();
        let mut i: usize = 0;
        while i < n
            invariant
                n == self.schemas@.len(),
                i <= n,
                out@.len() == i,
                forall|k: int| 0 <= k < i ==> crate::claims::schema_eqv(out@[k], self.schemas@[k]),
            decreases n - i,
        {
            out.push(self.schemas[i].clone());
            i += 1;
        }
        out
    }

    // ── Claims ───────────────────────────────────────────────────────────────

    pub fn find_claim(&self, lock_id: &TxId) -> (r: Option<usize>)
        ensures
            match r {
                Some(i) => i < self.claims@.len() && self.claims@[i as int].lock_id@ == lock_id@,
                None => !self.has_claim(lock_id@),
            },
    {
        let n: usize = self.claims.len();
        let mut i: usize = 0;
        while i < n
            invariant
                n == self.claims@.len(),
                i <= n,
                forall|j: int| 0 <= j < i ==> self.claims@[j].lock_id@ != lock_id@,
            decreases n - i,
        {
            if self.claims[i].lock_id.same(lock_id) {
                return Some(i);
            }
            i += 1;
        }
        None
    }

    /// With distinct keys, any index holding `id` is `claim_index(id)`.
    pub proof fn lemma_claim_index_unique(self, i: int, id: Seq<u8>)
        requires
            self.wf(),
            0 <= i < self.claims@.len(),
            self.claims@[i].lock_id@ == id,
        ensures
            self.has_claim(id),
            self.claim_index(id) == i,
    {
        assert(self.has_claim(id));
        let j = self.claim_index(id);
        assert(0 <= j < self.claims@.len() && self.claims@[j].lock_id@ == id);
    }

    pub fn get_claim(&self, lock_id: &TxId) -> (r: Option<&ClaimState>)
        requires
            self.wf(),
        ensures
            match r {
                Some(c) => self.has_claim(lock_id@) && *c == self.claim_of(lock_id@) && c.lock_id@
                    == lock_id@,
                None => !self.has_claim(lock_id@),
            },
    {
        match self.find_claim(lock_id) {
            Some(i) => {
                proof {
                    self.lemma_claim_index_unique(i as int, lock_id@);
                }
                Some(&self.claims[i])
            },
            None => None,
        }
    }

    /// Insert or overwrite the claim keyed by its lock id.
    pub fn put_claim(&mut self, c: ClaimState)
        requires
            old(self).wf(),
        ensures
            final(self).wf(),
            old(self).has_claim(c.lock_id@) ==> final(self).claims@ == old(self).claims@.update(
                old(self).claim_index(c.lock_id@),
                c,
            ),
            !old(self).has_claim(c.lock_id@) ==> final(self).claims@ == old(self).claims@.push(c),
            final(self).accounts == old(self).accounts,
            final(self).vertices == old(self).vertices,
            final(self).timelocks == old(self).timelocks,
            final(self).dag_tips == old(self).dag_tips,
            final(self).next_schema_id_counter == old(self).next_schema_id_counter,
            final(self).providers == old(self).providers,
            final(self).schemas == old(self).schemas,
            final(self).oracle_snapshots == old(self).oracle_snapshots,
            final(self).oracle_submissions == old(self).oracle_submissions,
            final(self).forfeited == old(self).forfeited,
    {
        let idx = self.find_claim(&c.lock_id);
        match idx {
            Some(i) => {
                proof {
                    self.lemma_claim_index_unique(i as int, c.lock_id@);
                }
                vstd::pervasive::VecAdditionalExecFns::set(&mut self.claims, i, c);
            },
            None => {
                self.claims.push(c);
            },
        }
    }

    // ── Oracle ───────────────────────────────────────────────────────────────

    pub fn find_snapshot(&self, pair: &str) -> (r: Option<usize>)
        ensures
            match r {
                Some(i) => i < self.oracle_snapshots@.len()
                    && self.oracle_snapshots@[i as int].pair@ == pair@,
                None => !self.has_snapshot(pair@),
            },
    {
        let n: usize = self.oracle_snapshots.len();
        let mut i: usize = 0;
        while i < n
            invariant
                n == self.oracle_snapshots@.len(),
                i <= n,
                forall|j: int| 0 <= j < i ==> self.oracle_snapshots@[j].pair@ != pair@,
            decreases n - i,
        {
            if str_eq(self.oracle_snapshots[i].pair.as_str(), pair) {
                return Some(i);
            }
            i += 1;
        }
        None
    }

    /// With distinct keys, any index holding `pair` is `snapshot_index(pair)`.
    pub proof fn lemma_snapshot_index_unique(self, i: int, pair: Seq<char>)
        requires
            self.wf(),
            0 <= i < self.oracle_snapshots@.len(),
            self.oracle_snapshots@[i].pair@ == pair,
        ensures
            self.has_snapshot(pair),
            self.snapshot_index(pair) == i,
    {
        assert(self.has_snapshot(pair));
        let j = self.snapshot_index(pair);
        assert(0 <= j < self.oracle_snapshots@.len() && self.oracle_snapshots@[j].pair@ == pair);
    }

    pub fn get_oracle_snapshot(&self, pair: &str) -> (r: Option<&OracleSnapshot>)
        requires
            self.wf(),
        ensures
            match r {
                Some(s) => self.has_snapshot(pair@) && *s == self.snapshot_of(pair@) && s.pair@
                    == pair@,
                None => !self.has_snapshot(pair@),
            },
    {
        match self.find_snapshot(pair) {
            Some(i) => {
                proof {
                    self.lemma_snapshot_index_unique(i as int, pair@);
                }
                Some(&self.oracle_snapshots[i])
            },
            None => None,
        }
    }

    /// Insert or overwrite the snapshot keyed by its pair.
    pub fn put_oracle_snapshot(&mut self, s: OracleSnapshot)
        requires
            old(self).wf(),
        ensures
            final(self).wf(),
            old(self).has_snapshot(s.pair@) ==> final(self).oracle_snapshots@
                == old(self).oracle_snapshots@.update(old(self).snapshot_index(s.pair@), s),
            !old(self).has_snapshot(s.pair@) ==> final(self).oracle_snapshots@
                == old(self).oracle_snapshots@.push(s),
            final(self).accounts == old(self).accounts,
            final(self).vertices == old(self).vertices,
            final(self).timelocks == old(self).timelocks,
            final(self).dag_tips == old(self).dag_tips,
            final(self).next_schema_id_counter == old(self).next_schema_id_counter,
            final(self).providers == old(self).providers,
            final(self).schemas == old(self).schemas,
            final(self).claims == old(self).claims,
            final(self).oracle_submissions == old(self).oracle_submissions,
            final(self).forfeited == old(self).forfeited,
    {
        let idx = self.find_snapshot(s.pair.as_str());
        match idx {
            Some(i) => {
                proof {
                    self.lemma_snapshot_index_unique(i as int, s.pair@);
                }
                vstd::pervasive::VecAdditionalExecFns::set(&mut self.oracle_snapshots, i, s);
            },
            None => {
                self.oracle_snapshots.push(s);
            },
        }
    }

    pub fn find_submission(&self, pair: &str, submitter: &AccountId) -> (r: Option<usize>)
        ensures
            match r {
                Some(i) => i < self.oracle_submissions@.len()
                    && self.oracle_submissions@[i as int].pair@ == pair@
                    && self.oracle_submissions@[i as int].submitter@ == submitter@,
                None => !self.has_submission(pair@, submitter@),
            },
    {
        let n: usize = self.oracle_submissions.len();
        let mut i: usize = 0;
        while i < n
            invariant
                n == self.oracle_submissions@.len(),
                i <= n,
                forall|j: int|
                    0 <= j < i ==> !(self.oracle_submissions@[j].pair@ == pair@
                        && self.oracle_submissions@[j].submitter@ == submitter@),
            decreases n - i,
        {
            if str_eq(self.oracle_submissions[i].pair.as_str(), pair)
                && self.oracle_submissions[i].submitter.same(submitter) {
                return Some(i);
            }
            i += 1;
        }
        None
    }

    /// With distinct keys, any index holding the key is `submission_index`.
    pub proof fn lemma_submission_index_unique(self, i: int, pair: Seq<char>, submitter: Seq<u8>)
        requires
            self.wf(),
            0 <= i < self.oracle_submissions@.len(),
            self.oracle_submissions@[i].pair@ == pair,
            self.oracle_submissions@[i].submitter@ == submitter,
        ensures
            self.has_submission(pair, submitter),
            self.submission_index(pair, submitter) == i,
    {
        assert(self.has_submission(pair, submitter));
        let j = self.submission_index(pair, submitter);
        assert(0 <= j < self.oracle_submissions@.len() && self.oracle_submissions@[j].pair@
            == pair && self.oracle_submissions@[j].submitter@ == submitter);
    }

    /// Insert or overwrite the submission keyed by (pair, submitter).
    pub fn put_oracle_submission(&mut self, s: OracleSubmission)
        requires
            old(self).wf(),
        ensures
            final(self).wf(),
            old(self).has_submission(s.pair@, s.submitter@) ==> final(self).oracle_submissions@
                == old(self).oracle_submissions@.update(
                old(self).submission_index(s.pair@, s.submitter@),
                s,
            ),
            !old(self).has_submission(s.pair@, s.submitter@) ==> final(self).oracle_submissions@
                == old(self).oracle_submissions@.push(s),
            final(self).accounts == old(self).accounts,
            final(self).vertices == old(self).vertices,
            final(self).timelocks == old(self).timelocks,
            final(self).dag_tips == old(self).dag_tips,
            final(self).next_schema_id_counter == old(self).next_schema_id_counter,
            final(self).providers == old(self).providers,
            final(self).schemas == old(self).schemas,
            final(self).claims == old(self).claims,
            final(self).oracle_snapshots == old(self).oracle_snapshots,
            final(self).forfeited == old(self).forfeited,
    {
        let idx = self.find_submission(s.pair.as_str(), &s.submitter);
        match idx {
            Some(i) => {
                proof {
                    self.lemma_submission_index_unique(i as int, s.pair@, s.submitter@);
                }
                vstd::pervasive::VecAdditionalExecFns::set(&mut self.oracle_submissions, i, s);
            },
            None => {
                self.oracle_submissions.push(s);
            },
        }
    }

    /// All submissions for a pair, as copies, in store order.
    pub fn iter_oracle_submissions_for_pair(&self, pair: &str) -> (r: Vec<OracleSubmission>)
        ensures
            ({
                let m = self.oracle_submissions@.filter(|x: OracleSubmission| x.pair@ == pair@);
                r@.len() == m.len() && forall|i: int|
                    0 <= i < m.len() ==> submission_eqv(r@[i], m[i])
            }),
    {
        let ghost pred = |x: OracleSubmission| x.pair@ == pair@;
        let mut out: Vec<OracleSubmission> = Vec::new();
        let n: usize = self.oracle_submissions.len();
        let mut i: usize = 0;
        #[verifier::loop_isolation(false)]
        while i < n
            invariant
                n == self.oracle_submissions@.len(),
                i <= n,
                ({
                    let m = self.oracle_submissions@.take(i as int).filter(pred);
                    out@.len() == m.len() && forall|k: int|
                        0 <= k < m.len() ==> submission_eqv(out@[k], m[k])
                }),
            decreases n - i,
        {
            proof {
                let t1 = self.oracle_submissions@.take((i + 1) as int);
                let t0 = self.oracle_submissions@.take(i as int);
                assert(t1.drop_last() =~= t0);
                assert(t1.last() == self.oracle_submissions@[i as int]);
                reveal_with_fuel(Seq::<OracleSubmission>::filter, 2);
                if pred(self.oracle_submissions@[i as int]) {
                    assert(t1.filter(pred) == t0.filter(pred).push(
                        self.oracle_submissions@[i as int],
                    ));
                } else {
                    assert(t1.filter(pred) == t0.filter(pred));
                }
            }
            if str_eq(self.oracle_submissions[i].pair.as_str(), pair) {
                out.push(self.oracle_submissions[i].clone());
            }
            i += 1;
        }
        proof {
            assert(self.oracle_submissions@.take(n as int) =~= self.oracle_submissions@);
        }
        out
    }
}

/// Swap-removing index `i` removes exactly that element from the multiset.
proof fn lemma_swap_remove_multiset(s: Seq<TxId>, i: int)
    requires
        0 <= i < s.len(),
    ensures
        s.update(i, s[s.len() - 1]).drop_last().to_multiset() == s.to_multiset().remove(s[i]),
{
    broadcast use vstd::seq_lib::group_seq_properties;
    let last = s.len() - 1;
    if i == last {
        assert(s.update(i, s[last]) =~= s);
        s.to_multiset_ensures();
        assert(s.drop_last() =~= s.take(last));
        lemma_take_multiset(s, last);
    } else {
        let t = s.update(i, s[last]);
        assert(t.drop_last() =~= s.take(i).push(s[last]) + s.subrange(i + 1, last));
        assert(s =~= s.take(i).push(s[i]) + s.subrange(i + 1, last).push(s[last]));
        lemma_multiset_concat_push(s.take(i), s.subrange(i + 1, last), s[i], s[last]);
    }
}

/// Multiset bookkeeping for the swap-remove shape.
proof fn lemma_multiset_concat_push(a: Seq<TxId>, b: Seq<TxId>, x: TxId, y: TxId)
    ensures
        (a.push(y) + b).to_multiset() == (a.push(x) + b.push(y)).to_multiset().remove(x),
{
    broadcast use vstd::multiset::group_multiset_axioms;

    vstd::seq_lib::lemma_multiset_commutative(a.push(y), b);
    vstd::seq_lib::lemma_multiset_commutative(a.push(x), b.push(y));
    a.to_multiset_ensures();
    b.to_multiset_ensures();
    assert(a.push(y).to_multiset() == a.to_multiset().insert(y));
    assert(a.push(x).to_multiset() == a.to_multiset().insert(x));
    assert(b.push(y).to_multiset() == b.to_multiset().insert(y));
    assert((a.push(y) + b).to_multiset() =~= (a.push(x) + b.push(y)).to_multiset().remove(x));
}

/// Take preserves the multiset when taking everything but the last element of
/// a sequence ending in that element.
proof fn lemma_take_multiset(s: Seq<TxId>, last: int)
    requires
        last == s.len() - 1,
        0 <= last,
    ensures
        s.take(last).to_multiset() == s.to_multiset().remove(s[last]),
{
    assert(s =~= s.take(last).push(s[last]));
    s.take(last).to_multiset_ensures();
}

/// A key occurs somewhere in a tip sequence.
spec fn seq_has_id(s: Seq<TxId>, t: Seq<u8>) -> bool {
    exists|k: int| 0 <= k < s.len() && s[k]@ == t
}

/// Membership under swap-remove: every other key keeps its membership.
proof fn lemma_swap_remove_membership(s: Seq<TxId>, i: int, t: Seq<u8>)
    requires
        0 <= i < s.len(),
        t != s[i]@,
    ensures
        seq_has_id(s, t) == seq_has_id(s.update(i, s[s.len() - 1]).drop_last(), t),
{
    let r = s.update(i, s[s.len() - 1]).drop_last();
    if seq_has_id(s, t) {
        let k = choose|k: int| 0 <= k < s.len() && s[k]@ == t;
        if k == s.len() - 1 {
            if i < r.len() {
                assert(r[i] == s[k]);
            }
        } else if k != i {
            assert(r[k] == s[k]);
        }
    }
    if seq_has_id(r, t) {
        let k = choose|k: int| 0 <= k < r.len() && r[k]@ == t;
        if k == i {
            assert(s[s.len() - 1]@ == t);
        } else {
            assert(s[k]@ == t);
        }
    }
}

} // verus!
