//! Summation over sequences, with the update/push lemmas the supply-
//! conservation proofs lean on.

use vstd::prelude::*;

verus! {

/// The sum of `f` over a sequence.
pub open spec fn sum_by<T>(s: Seq<T>, f: spec_fn(T) -> int) -> int
    decreases s.len(),
{
    if s.len() == 0 {
        0
    } else {
        f(s[0]) + sum_by(s.drop_first(), f)
    }
}

/// Appending one element adds its measure.
pub proof fn lemma_sum_by_push<T>(s: Seq<T>, f: spec_fn(T) -> int, v: T)
    ensures
        sum_by(s.push(v), f) == sum_by(s, f) + f(v),
    decreases s.len(),
{
    if s.len() == 0 {
        let e = s.push(v).drop_first();
        assert(e =~= Seq::<T>::empty());
        assert(sum_by(e, f) == 0);
        assert(s.push(v)[0] == v);
        assert(sum_by(s, f) == 0);
    } else {
        assert(s.push(v).drop_first() =~= s.drop_first().push(v));
        assert(s.push(v)[0] == s[0]);
        lemma_sum_by_push(s.drop_first(), f, v);
    }
}

/// Replacing one element changes the sum by the difference of the measures.
pub proof fn lemma_sum_by_update<T>(s: Seq<T>, f: spec_fn(T) -> int, i: int, v: T)
    requires
        0 <= i < s.len(),
    ensures
        sum_by(s.update(i, v), f) == sum_by(s, f) - f(s[i]) + f(v),
    decreases s.len(),
{
    if i == 0 {
        assert(s.update(0, v).drop_first() =~= s.drop_first());
        assert(s.update(0, v)[0] == v);
    } else {
        assert(s.update(i, v).drop_first() =~= s.drop_first().update(i - 1, v));
        assert(s.drop_first()[i - 1] == s[i]);
        lemma_sum_by_update(s.drop_first(), f, i - 1, v);
    }
}

/// If `f` and `g` agree pointwise on two sequences of equal length, the sums
/// are equal.
pub proof fn lemma_sum_by_pointwise<T>(a: Seq<T>, b: Seq<T>, f: spec_fn(T) -> int)
    requires
        a.len() == b.len(),
        forall|i: int| 0 <= i < a.len() ==> f(a[i]) == f(b[i]),
    ensures
        sum_by(a, f) == sum_by(b, f),
    decreases a.len(),
{
    if a.len() > 0 {
        assert(forall|i: int|
            0 <= i < a.drop_first().len() ==> f(a.drop_first()[i]) == f(b.drop_first()[i]));
        lemma_sum_by_pointwise(a.drop_first(), b.drop_first(), f);
    }
}

/// Every element's measure is bounded by the whole sum when `f` is
/// non-negative.
pub proof fn lemma_sum_by_nonneg<T>(s: Seq<T>, f: spec_fn(T) -> int)
    requires
        forall|i: int| 0 <= i < s.len() ==> #[trigger] f(s[i]) >= 0,
    ensures
        sum_by(s, f) >= 0,
        forall|i: int| 0 <= i < s.len() ==> #[trigger] f(s[i]) <= sum_by(s, f),
    decreases s.len(),
{
    if s.len() > 0 {
        assert(forall|i: int|
            0 <= i < s.drop_first().len() ==> #[trigger] f(s.drop_first()[i]) == f(s[i + 1]));
        lemma_sum_by_nonneg(s.drop_first(), f);
        assert forall|i: int| 0 <= i < s.len() implies #[trigger] f(s[i]) <= sum_by(s, f) by {
            if i > 0 {
                assert(f(s.drop_first()[i - 1]) <= sum_by(s.drop_first(), f));
            }
        }
    }
}

/// Two distinct elements' measures together are bounded by the whole sum
/// when `f` is non-negative.
pub proof fn lemma_sum_by_two<T>(s: Seq<T>, f: spec_fn(T) -> int, i: int, j: int)
    requires
        forall|k: int| 0 <= k < s.len() ==> #[trigger] f(s[k]) >= 0,
        0 <= i < s.len(),
        0 <= j < s.len(),
        i != j,
    ensures
        f(s[i]) + f(s[j]) <= sum_by(s, f),
    decreases s.len(),
{
    if i == 0 || j == 0 {
        let other = if i == 0 {
            j
        } else {
            i
        };
        assert(forall|k: int|
            0 <= k < s.drop_first().len() ==> #[trigger] f(s.drop_first()[k]) == f(s[k + 1]));
        lemma_sum_by_nonneg(s.drop_first(), f);
        assert(f(s.drop_first()[other - 1]) <= sum_by(s.drop_first(), f));
    } else {
        assert(forall|k: int|
            0 <= k < s.drop_first().len() ==> #[trigger] f(s.drop_first()[k]) == f(s[k + 1]));
        lemma_sum_by_two(s.drop_first(), f, i - 1, j - 1);
        lemma_sum_by_nonneg(s, f);
        assert(f(s[0]) >= 0);
    }
}

} // verus!
