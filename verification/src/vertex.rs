//! DAG vertices: a persisted transaction plus DAG-level bookkeeping.

use vstd::prelude::*;

use crate::transaction::Transaction;
use crate::types::{Timestamp, TxId};

verus! {

/// Finality status of a vertex in the DAG.
#[derive(Clone, Debug)]
pub enum VertexStatus {
    /// Received but not yet confirmed by validators.
    Pending,
    /// Confirmed by at least two thirds of the active validators.
    Final,
    /// Rejected by consensus.
    Rejected { reason: String },
}

/// A vertex in the DAG. Each vertex wraps one transaction and carries
/// DAG-level metadata. The genesis vertex has no parents and is the only such
/// vertex in the DAG.
#[derive(Debug)]
pub struct Vertex {
    /// The transaction payload (immutable once persisted).
    pub transaction: Transaction,
    /// Depth in the DAG: 0 for genesis, otherwise max(parent depth) + 1.
    pub depth: u64,
    /// When this vertex was first seen by the local node.
    pub received_at: Timestamp,
    /// Current finality status.
    pub status: VertexStatus,
    /// TxIds of vertices that directly reference this one as a parent.
    pub children: Vec<TxId>,
    /// Number of validator confirmations received so far.
    pub confirmation_count: u32,
}

impl Vertex {
    pub fn new(transaction: Transaction, depth: u64, received_at: Timestamp) -> (r: Self)
        ensures
            r.transaction == transaction,
            r.depth == depth,
            r.received_at == received_at,
            r.status is Pending,
            r.children@ == Seq::<TxId>::empty(),
            r.confirmation_count == 0,
    {
        Vertex {
            transaction,
            depth,
            received_at,
            status: VertexStatus::Pending,
            children: Vec::new(),
            confirmation_count: 0,
        }
    }

    pub fn tx_id(&self) -> (r: &TxId)
        ensures
            r == &self.transaction.tx_id,
    {
        &self.transaction.tx_id
    }

    pub fn parents(&self) -> (r: &Vec<TxId>)
        ensures
            r == &self.transaction.parents,
    {
        &self.transaction.parents
    }

    pub fn is_genesis(&self) -> (r: bool)
        ensures
            r == (self.transaction.parents@.len() == 0),
    {
        self.transaction.parents.len() == 0
    }

    pub fn is_final(&self) -> (r: bool)
        ensures
            r == (self.status is Final),
    {
        match self.status {
            VertexStatus::Final => true,
            _ => false,
        }
    }
}

} // verus!
