//! The finality tracker: collects validator confirmations per vertex and
//! marks a vertex Final once two thirds of the active validators confirm.

use vstd::prelude::*;

use crate::store::StateDb;
use crate::types::{AccountId, TxId};
use crate::validator::ValidatorSet;
use crate::vertex::VertexStatus;

verus! {

/// Emitted when a confirmation is recorded.
#[derive(Clone, Copy, PartialEq, Eq, Debug)]
pub struct ConfirmationEvent {
    pub tx_id: TxId,
    pub confirming_validator: AccountId,
    pub confirmation_count: u32,
    pub is_final: bool,
}

/// Tracks confirmation votes: for each pending vertex, the validators that
/// confirmed it so far.
pub struct FinalityTracker {
    pub pending: Vec<(TxId, Vec<AccountId>)>,
}

impl FinalityTracker {
    /// Tracked vertex ids are distinct, and no validator is counted twice
    /// for the same vertex.
    pub open spec fn wf(self) -> bool {
        &&& forall|i: int, j: int|
            0 <= i < j < self.pending@.len() ==> self.pending@[i].0@ != self.pending@[j].0@
        &&& forall|k: int, i: int, j: int|
            0 <= k < self.pending@.len() && 0 <= i < j < self.pending@[k].1@.len()
                ==> self.pending@[k].1@[i]@ != self.pending@[k].1@[j]@
    }

    /// A tracking entry for this vertex exists.
    pub open spec fn has_entry(self, tx_id: Seq<u8>) -> bool {
        exists|i: int| 0 <= i < self.pending@.len() && self.pending@[i].0@ == tx_id
    }

    /// The index of this vertex's tracking entry.
    pub open spec fn entry_index(self, tx_id: Seq<u8>) -> int {
        choose|i: int| 0 <= i < self.pending@.len() && self.pending@[i].0@ == tx_id
    }

    /// The validators that have confirmed this vertex so far.
    pub open spec fn confirmations_of(self, tx_id: Seq<u8>) -> Seq<AccountId> {
        if self.has_entry(tx_id) {
            self.pending@[self.entry_index(tx_id)].1@
        } else {
            Seq::<AccountId>::empty()
        }
    }

    /// Whether this validator has already confirmed this vertex.
    pub open spec fn spec_confirmed(self, tx_id: Seq<u8>, v: Seq<u8>) -> bool {
        exists|j: int|
            0 <= j < self.confirmations_of(tx_id).len() && self.confirmations_of(tx_id)[j]@ == v
    }

    /// With distinct keys, any index holding `tx_id` is `entry_index`.
    pub proof fn lemma_entry_index_unique(self, i: int, tx_id: Seq<u8>)
        requires
            self.wf(),
            0 <= i < self.pending@.len(),
            self.pending@[i].0@ == tx_id,
        ensures
            self.has_entry(tx_id),
            self.entry_index(tx_id) == i,
    {
        assert(self.has_entry(tx_id));
        let j = self.entry_index(tx_id);
        assert(0 <= j < self.pending@.len() && self.pending@[j].0@ == tx_id);
    }

    pub fn new() -> (r: FinalityTracker)
        ensures
            r.wf(),
            r.pending@.len() == 0,
    {
        FinalityTracker { pending: Vec::new() }
    }

    /// Index of the tracking entry for a vertex, if any.
    fn find_pending(&self, tx_id: &TxId) -> (r: Option<usize>)
        ensures
            match r {
                Some(i) => i < self.pending@.len() && self.pending@[i as int].0@ == tx_id@,
                None => forall|j: int| 0 <= j < self.pending@.len() ==> self.pending@[j].0@
                    != tx_id@,
            },
    {
        let n: usize = self.pending.len();
        let mut i: usize = 0;
        while i < n
            invariant
                n == self.pending@.len(),
                i <= n,
                forall|j: int| 0 <= j < i ==> self.pending@[j].0@ != tx_id@,
            decreases n - i,
        {
            if self.pending[i].0.same(tx_id) {
                return Some(i);
            }
            i += 1;
        }
        None
    }

    /// Number of vertices currently awaiting finality.
    pub fn pending_count(&self) -> (r: usize)
        ensures
            r == self.pending@.len(),
    {
        self.pending.len()
    }

    /// Record a confirmation from `validator` for `tx_id`. A confirmation is
    /// recorded — and an event returned — exactly when the sender is a
    /// validator that has not already confirmed this vertex; anything else
    /// returns None and changes nothing. The count is the number of distinct
    /// confirming validators; at the two-thirds threshold the stored vertex
    /// is upgraded to Final and the tracking entry is dropped.
    pub fn record_confirmation(
        &mut self,
        tx_id: &TxId,
        validator: &AccountId,
        validators: &ValidatorSet,
        db: &mut StateDb,
    ) -> (r: Option<ConfirmationEvent>)
        requires
            old(self).wf(),
            old(db).wf(),
            validators.validators@.len() < 1_000_000_000,
        ensures
            final(self).wf(),
            final(db).wf(),
            r is None <==> (!validators.spec_is_validator(validator@) || old(self).spec_confirmed(
                tx_id@,
                validator@,
            )),
            r is None ==> *final(self) == *old(self) && *final(db) == *old(db),
            r matches Some(e) ==> {
                &&& e.tx_id@ == tx_id@
                &&& e.confirming_validator@ == validator@
                &&& (old(self).confirmations_of(tx_id@).len() + 1 <= u32::MAX
                    ==> e.confirmation_count == old(self).confirmations_of(tx_id@).len() + 1)
                &&& e.confirmation_count >= 1
                &&& (e.is_final <==> e.confirmation_count >= (2
                    * crate::validator::spec_online_count(
                    validators.validators@,
                    validators.validators@.len() as int,
                ) + 2) / 3)
            },
            r matches Some(e) && !e.is_final ==> final(self).has_entry(tx_id@) && final(self).confirmations_of(tx_id@) == old(self).confirmations_of(tx_id@).push(*validator)
                && *final(db) == *old(db),
            r matches Some(e) && e.is_final ==> !final(self).has_entry(tx_id@),
            match r {
                Some(e) => e.is_final && old(db).has_vertex(tx_id@) ==> final(db).vertices@
                    == old(db).vertices@.update(
                    old(db).vertex_index(tx_id@),
                    crate::vertex::Vertex {
                        status: VertexStatus::Final,
                        confirmation_count: e.confirmation_count,
                        ..old(db).vertices@[old(db).vertex_index(tx_id@)]
                    },
                ),
                None => true,
            },
            r matches Some(e) && e.is_final && !old(db).has_vertex(tx_id@) ==> *final(db) == *old(
                db,
            ),
            final(db).accounts == old(db).accounts,
            final(db).timelocks == old(db).timelocks,
            final(db).dag_tips == old(db).dag_tips,
            final(db).providers == old(db).providers,
            final(db).schemas == old(db).schemas,
            final(db).claims == old(db).claims,
            final(db).oracle_snapshots == old(db).oracle_snapshots,
            final(db).oracle_submissions == old(db).oracle_submissions,
            final(db).next_schema_id_counter == old(db).next_schema_id_counter,
            final(db).forfeited == old(db).forfeited,
            final(db).circulating() == old(db).circulating(),
    {
        if !validators.is_validator(validator) {
            return None;
        }

        // Find the tracking entry; reject a duplicate before touching state.
        let idx: usize = match self.find_pending(tx_id) {
            Some(i) => {
                proof {
                    self.lemma_entry_index_unique(i as int, tx_id@);
                }
                let m: usize = self.pending[i].1.len();
                let mut k: usize = 0;
                #[verifier::loop_isolation(false)]
                while k < m
                    invariant
                        i < self.pending@.len(),
                        m == self.pending@[i as int].1@.len(),
                        k <= m,
                        forall|j: int|
                            0 <= j < k ==> self.pending@[i as int].1@[j]@ != validator@,
                    decreases m - k,
                {
                    if self.pending[i].1[k].same(validator) {
                        proof {
                            assert(old(self).spec_confirmed(tx_id@, validator@));
                        }
                        return None;
                    }
                    k += 1;
                }
                proof {
                    assert(!old(self).spec_confirmed(tx_id@, validator@));
                }
                i
            },
            None => {
                proof {
                    assert(!old(self).has_entry(tx_id@));
                    assert(!old(self).spec_confirmed(tx_id@, validator@));
                }
                self.pending.push((*tx_id, Vec::new()));
                proof {
                    assert(self.wf());
                    self.lemma_entry_index_unique(self.pending@.len() - 1, tx_id@);
                }
                self.pending.len() - 1
            },
        };

        // Record the confirmation.
        let ghost t0 = *self;
        let mut entry = (*tx_id, Vec::new());
        self.pending.set_and_swap(idx, &mut entry);
        let (eid, mut list) = entry;
        list.push(*validator);
        let count_usize = list.len();
        self.pending.set_and_swap(idx, &mut (eid, list));
        proof {
            assert(self.pending@ =~= t0.pending@.update(
                idx as int,
                (t0.pending@[idx as int].0, self.pending@[idx as int].1),
            ));
            self.lemma_entry_index_unique(idx as int, tx_id@);
            assert(self.confirmations_of(tx_id@) == t0.pending@[idx as int].1@.push(*validator));
        }

        let count: u32 = if count_usize > 0xffff_ffff {
            0xffff_ffff
        } else {
            count_usize as u32
        };
        let threshold = validators.finality_threshold();
        let is_final = count >= threshold;

        if is_final {
            // Mark the vertex Final in the store.
            match db.find_vertex(tx_id) {
                Some(vi) => {
                    proof {
                        db.lemma_vertex_index_unique(vi as int, tx_id@);
                    }
                    let ghost dbv = *db;
                    let mut v = placeholder_vertex(tx_id);
                    db.vertices.set_and_swap(vi, &mut v);
                    v.status = VertexStatus::Final;
                    v.confirmation_count = count;
                    let ghost vfin = v;
                    db.vertices.set(vi, v);
                    proof {
                        assert(db.vertices@ =~= dbv.vertices@.update(vi as int, vfin));
                    }
                },
                None => (),
            }
            // Clean up the tracking entry.
            let ghost p0 = self.pending@;
            let _ = self.pending.swap_remove(idx);
            proof {
                assert forall|a: int|
                    0 <= a < self.pending@.len() implies self.pending@[a].0@ != tx_id@ by {
                    if a != idx as int {
                        assert(self.pending@[a] == p0[a]);
                    }
                }
            }
        }

        Some(
            ConfirmationEvent {
                tx_id: *tx_id,
                confirming_validator: *validator,
                confirmation_count: count,
                is_final,
            },
        )
    }
}

impl Default for FinalityTracker {
    fn default() -> (r: Self)
        ensures
            r.wf(),
            r.pending@.len() == 0,
    {
        FinalityTracker { pending: Vec::new() }
    }
}

/// A placeholder vertex used while swapping a record out of the store.
fn placeholder_vertex(id: &TxId) -> (r: crate::vertex::Vertex) {
    crate::vertex::Vertex {
        transaction: crate::transaction::Transaction {
            tx_id: *id,
            parents: Vec::new(),
            timestamp: 0,
            nonce: 0,
            from: AccountId::from_bytes([0u8; 32]),
            actions: Vec::new(),
            pow_nonce: 0,
            signatures: Vec::new(),
            auth_scheme: crate::transaction::AuthScheme::SingleSig,
            tx_version: 1,
            fee_chronos: 0,
            expires_at: None,
            sender_public_key: None,
        },
        depth: 0,
        received_at: 0,
        status: VertexStatus::Pending,
        children: Vec::new(),
        confirmation_count: 0,
    }
}

} // verus!
