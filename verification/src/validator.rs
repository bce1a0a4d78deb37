//! The active validator set: staked accounts that confirm vertices.

use vstd::prelude::*;

use crate::types::{AccountId, Balance};

verus! {

/// Information about a single validator.
#[derive(Clone, Copy, PartialEq, Eq, Debug)]
pub struct ValidatorInfo {
    pub account_id: AccountId,
    /// Total Chronos staked.
    pub stake: Balance,
    /// Whether this validator is currently online.
    pub online: bool,
    /// Number of vertices this validator has confirmed.
    pub confirmations_issued: u64,
}

/// The active validator set, keyed by account id.
#[derive(Clone, Debug)]
pub struct ValidatorSet {
    pub validators: Vec<ValidatorInfo>,
}

/// The number of online validators among the first `n`.
pub open spec fn spec_online_count(s: Seq<ValidatorInfo>, n: int) -> int
    decreases n,
{
    if n <= 0 {
        0
    } else {
        spec_online_count(s, n - 1) + if s[n - 1].online {
            1int
        } else {
            0int
        }
    }
}

impl ValidatorSet {
    /// Ids are distinct.
    pub open spec fn wf(self) -> bool {
        forall|i: int, j: int|
            0 <= i < j < self.validators@.len() ==> self.validators@[i].account_id@
                != self.validators@[j].account_id@
    }

    pub open spec fn spec_is_validator(self, id: Seq<u8>) -> bool {
        exists|i: int|
            0 <= i < self.validators@.len() && self.validators@[i].account_id@ == id
    }

    pub fn new() -> (r: ValidatorSet)
        ensures
            r.wf(),
            r.validators@.len() == 0,
    {
        ValidatorSet { validators: Vec::new() }
    }

    fn find(&self, id: &AccountId) -> (r: Option<usize>)
        ensures
            match r {
                Some(i) => i < self.validators@.len() && self.validators@[i as int].account_id@
                    == id@,
                None => !self.spec_is_validator(id@),
            },
    {
        let n: usize = self.validators.len();
        let mut i: usize = 0;
        while i < n
            invariant
                n == self.validators@.len(),
                i <= n,
                forall|j: int| 0 <= j < i ==> self.validators@[j].account_id@ != id@,
            decreases n - i,
        {
            if self.validators[i].account_id.same(id) {
                return Some(i);
            }
            i += 1;
        }
        None
    }

    /// Add a validator, replacing any record under the same id.
    pub fn add(&mut self, info: ValidatorInfo)
        requires
            old(self).wf(),
        ensures
            final(self).wf(),
            final(self).spec_is_validator(info.account_id@),
    {
        match self.find(&info.account_id) {
            Some(i) => {
                vstd::pervasive::VecAdditionalExecFns::set(&mut self.validators, i, info);
                proof {
                    assert(self.validators@[i as int].account_id@ == info.account_id@);
                }
            },
            None => {
                self.validators.push(info);
                proof {
                    let last = self.validators@.len() - 1;
                    assert(self.validators@[last].account_id@ == info.account_id@);
                }
            },
        }
    }

    /// Remove the validator under `id`, if present.
    pub fn remove(&mut self, id: &AccountId)
        requires
            old(self).wf(),
        ensures
            final(self).wf(),
            !final(self).spec_is_validator(id@),
    {
        match self.find(id) {
            Some(i) => {
                let ghost vs = self.validators@;
                let _ = self.validators.swap_remove(i);
                proof {
                    assert forall|k: int|
                        0 <= k < self.validators@.len() implies self.validators@[k].account_id@
                        != id@ by {
                        if k != i as int {
                            assert(self.validators@[k] == vs[k]);
                        }
                    }
                }
            },
            None => (),
        }
    }

    pub fn get(&self, id: &AccountId) -> (r: Option<&ValidatorInfo>)
        ensures
            match r {
                Some(v) => self.spec_is_validator(id@) && v.account_id@ == id@,
                None => !self.spec_is_validator(id@),
            },
    {
        match self.find(id) {
            Some(i) => Some(&self.validators[i]),
            None => None,
        }
    }

    pub fn is_validator(&self, id: &AccountId) -> (r: bool)
        ensures
            r == self.spec_is_validator(id@),
    {
        match self.find(id) {
            Some(_) => true,
            None => false,
        }
    }

    /// The number of validators currently online.
    pub fn active_count(&self) -> (r: usize)
        ensures
            r == spec_online_count(self.validators@, self.validators@.len() as int),
    {
        let n: usize = self.validators.len();
        let mut count: usize = 0;
        let mut i: usize = 0;
        #[verifier::loop_isolation(false)]
        while i < n
            invariant
                i <= n,
                count == spec_online_count(self.validators@, i as int),
                count <= i,
            decreases n - i,
        {
            if self.validators[i].online {
                count += 1;
            }
            i += 1;
        }
        count
    }

    pub fn total_count(&self) -> (r: usize)
        ensures
            r == self.validators@.len(),
    {
        self.validators.len()
    }

    /// Finality threshold: ⌈2/3 of the active validators⌉, computed as
    /// (2n + 2) / 3.
    pub fn finality_threshold(&self) -> (r: u32)
        requires
            self.validators@.len() < 1_000_000_000,
        ensures
            r == (2 * spec_online_count(self.validators@, self.validators@.len() as int) + 2)
                / 3,
    {
        let active = self.active_count() as u64;
        proof {
            lemma_online_count_bound(self.validators@, self.validators@.len() as int);
        }
        ((2 * active + 2) / 3) as u32
    }

    /// Mark a validator online or offline.
    pub fn set_online(&mut self, id: &AccountId, online: bool)
        requires
            old(self).wf(),
        ensures
            final(self).wf(),
            final(self).validators@.len() == old(self).validators@.len(),
    {
        match self.find(id) {
            Some(i) => {
                let mut v = self.validators[i];
                v.online = online;
                vstd::pervasive::VecAdditionalExecFns::set(&mut self.validators, i, v);
            },
            None => (),
        }
    }

    /// The validators ordered by stake, largest first.
    pub fn ranked(&self) -> (r: Vec<ValidatorInfo>)
        ensures
            r@.len() == self.validators@.len(),
            forall|i: int, j: int| 0 <= i < j < r@.len() ==> r@[i].stake >= r@[j].stake,
            r@.to_multiset() == self.validators@.to_multiset(),
    {
        let mut out: Vec<ValidatorInfo> = Vec::new();
        let n: usize = self.validators.len();
        let mut i: usize = 0;
        proof {
            assert(self.validators@.take(0) =~= Seq::<ValidatorInfo>::empty());
            Seq::<ValidatorInfo>::empty().to_multiset_ensures();
            assert(out@.to_multiset() =~= self.validators@.take(0).to_multiset());
        }
        #[verifier::loop_isolation(false)]
        while i < n
            invariant
                i <= n,
                out@.len() == i,
                forall|a: int, b: int| 0 <= a < b < out@.len() ==> out@[a].stake >= out@[b].stake,
                out@.to_multiset() == self.validators@.take(i as int).to_multiset(),
            decreases n - i,
        {
            let x = self.validators[i];
            let m: usize = out.len();
            let mut k: usize = 0;
            while k < m && out[k].stake >= x.stake
                invariant
                    m == out@.len(),
                    k <= m,
                    forall|j: int| 0 <= j < k ==> out@[j].stake >= x.stake,
                decreases m - k,
            {
                k += 1;
            }
            let ghost out0 = out@;
            out.insert(k, x);
            proof {
                assert(k < m ==> out0[k as int].stake < x.stake);
                assert forall|a: int, b: int| 0 <= a < b < out@.len() implies out@[a].stake
                    >= out@[b].stake by {
                    if b < k {
                    } else if a < k && b == k {
                    } else if a < k && b > k {
                        assert(out@[b] == out0[b - 1]);
                        if b - 1 >= k {
                            assert(out0[b - 1].stake <= out0[k as int].stake);
                        }
                    } else if a == k {
                        assert(out@[b] == out0[b - 1]);
                        assert(out0[b - 1].stake <= out0[k as int].stake);
                    } else {
                        assert(out@[a] == out0[a - 1]);
                        assert(out@[b] == out0[b - 1]);
                    }
                }
                lemma_insert_multiset_validator(out0, k as int, x);
                assert(self.validators@.take((i + 1) as int).drop_last() =~= self.validators@.take(
                    i as int,
                ));
                self.validators@.take(i as int).to_multiset_ensures();
                assert(self.validators@.take((i + 1) as int) =~= self.validators@.take(
                    i as int,
                ).push(x));
            }
            i += 1;
        }
        proof {
            assert(self.validators@.take(n as int) =~= self.validators@);
        }
        out
    }
}

/// Online validators never outnumber the set.
proof fn lemma_online_count_bound(s: Seq<ValidatorInfo>, n: int)
    requires
        0 <= n <= s.len(),
    ensures
        0 <= spec_online_count(s, n) <= n,
    decreases n,
{
    if n > 0 {
        lemma_online_count_bound(s, n - 1);
    }
}

/// Inserting at any position adds the element to the multiset.
proof fn lemma_insert_multiset_validator(s: Seq<ValidatorInfo>, k: int, x: ValidatorInfo)
    requires
        0 <= k <= s.len(),
    ensures
        s.insert(k, x).to_multiset() == s.to_multiset().insert(x),
{
    broadcast use vstd::multiset::group_multiset_axioms;

    vstd::seq_lib::lemma_multiset_commutative(s.take(k).push(x), s.skip(k));
    vstd::seq_lib::lemma_multiset_commutative(s.take(k), s.skip(k));
    assert(s.insert(k, x) =~= s.take(k).push(x) + s.skip(k));
    assert(s =~= s.take(k) + s.skip(k));
    s.take(k).to_multiset_ensures();
    assert(s.insert(k, x).to_multiset() =~= s.to_multiset().insert(x));
}

} // verus!
