//! Eligibility filtering for random commit selection.
//!
//! A history walk yields one entry per reachable commit: its identifier
//! paired with its parent count. Selection draws only from the entries this
//! module keeps, so the laws here pin down exactly which commits can ever be
//! drawn: never a merge commit, and every non-merge commit that was walked.

use vstd::prelude::*;

verus! {

/// A commit is a merge commit when it has two or more parents.
pub open spec fn is_merge(parent_count: usize) -> bool {
    parent_count >= 2
}

/// Decides whether a commit with the given parent count is eligible for
/// random selection: root commits (no parents) and ordinary commits (one
/// parent) are eligible, merge commits are not.
pub fn eligible_parent_count(parent_count: usize) -> (r: bool)
    ensures
        r == !is_merge(parent_count),
{
    parent_count <= 1
}

/// The identifiers of the non-merge entries, in walk order: entry `(id, n)`
/// survives exactly when `n` is at most one.
pub open spec fn eligible_ids<T>(entries: Seq<(T, usize)>) -> Seq<T>
    decreases entries.len(),
{
    if entries.len() == 0 {
        Seq::empty()
    } else if !is_merge(entries.last().1) {
        eligible_ids(entries.drop_last()).push(entries.last().0)
    } else {
        eligible_ids(entries.drop_last())
    }
}

/// Keeps, in walk order, the identifier of every entry whose parent count
/// marks it as a non-merge commit.
pub fn filter_eligible<T: Copy>(entries: &Vec<(T, usize)>) -> (r: Vec<T>)
    ensures
        r@ == eligible_ids(entries@),
{
    let mut r: Vec<T> = Vec::new();
    let mut k: usize = 0;
    proof {
        assert(entries@.subrange(0, 0) =~= Seq::<(T, usize)>::empty());
    }
    while k < entries.len()
        invariant
            k <= entries@.len(),
            r@ == eligible_ids(entries@.subrange(0, k as int)),
        decreases entries@.len() - k,
    {
        let e = entries[k];
        if eligible_parent_count(e.1) {
            r.push(e.0);
        }
        proof {
            let next = entries@.subrange(0, k as int + 1);
            assert(next.drop_last() =~= entries@.subrange(0, k as int));
            assert(next.last() == entries@[k as int]);
        }
        k = k + 1;
    }
    proof {
        assert(entries@.subrange(0, entries@.len() as int) =~= entries@);
    }
    r
}

/// Law (selection safety): every identifier the filter keeps — here the one
/// at position `j` — comes from a walked entry whose parent count is at most
/// one, so a choice among the kept identifiers can never name a merge
/// commit.
pub proof fn lemma_eligible_only_non_merge<T>(entries: Seq<(T, usize)>, j: int)
    requires
        0 <= j < eligible_ids(entries).len(),
    ensures
        exists|k: int|
            0 <= k < entries.len() && (#[trigger] entries[k].0) == eligible_ids(entries)[j]
                && !is_merge(entries[k].1),
    decreases entries.len(),
{
    let el = eligible_ids(entries);
    let prefix = entries.drop_last();
    let elp = eligible_ids(prefix);
    if !is_merge(entries.last().1) && j == el.len() - 1 {
        let k = entries.len() - 1;
        assert(entries[k] == entries.last());
        assert(0 <= k < entries.len() && entries[k].0 == el[j] && !is_merge(entries[k].1));
    } else {
        lemma_eligible_only_non_merge(prefix, j);
        let k = choose|k: int|
            0 <= k < prefix.len() && (#[trigger] prefix[k].0) == elp[j] && !is_merge(prefix[k].1);
        assert(entries[k] == prefix[k]);
        assert(el[j] == elp[j]);
        assert(0 <= k < entries.len() && entries[k].0 == el[j] && !is_merge(entries[k].1));
    }
}

/// Law (selection safety, for a chosen element): whatever identifier a
/// random choice picks out of the filter's result, some walked entry carries
/// it with a parent count of at most one.
pub proof fn lemma_chosen_is_non_merge<T>(entries: Seq<(T, usize)>, chosen: T)
    requires
        eligible_ids(entries).contains(chosen),
    ensures
        exists|k: int|
            0 <= k < entries.len() && (#[trigger] entries[k].0) == chosen && !is_merge(
                entries[k].1,
            ),
{
    let el = eligible_ids(entries);
    let j = choose|j: int| 0 <= j < el.len() && el[j] == chosen;
    lemma_eligible_only_non_merge(entries, j);
    let k = choose|k: int|
        0 <= k < entries.len() && (#[trigger] entries[k].0) == el[j] && !is_merge(entries[k].1);
    assert(0 <= k < entries.len() && entries[k].0 == chosen && !is_merge(entries[k].1));
}

/// Law: when every walked entry is a merge commit, nothing is eligible, so
/// selection must fail rather than return a commit.
pub proof fn lemma_all_merges_none_eligible<T>(entries: Seq<(T, usize)>)
    requires
        forall|k: int| 0 <= k < entries.len() ==> is_merge(#[trigger] entries[k].1),
    ensures
        eligible_ids(entries).len() == 0,
    decreases entries.len(),
{
    if entries.len() > 0 {
        let prefix = entries.drop_last();
        assert(is_merge(entries[entries.len() - 1].1));
        assert forall|k: int| 0 <= k < prefix.len() implies is_merge(#[trigger] prefix[k].1) by {
            assert(prefix[k] == entries[k]);
        }
        lemma_all_merges_none_eligible(prefix);
    }
}

/// Law (no loss): when no walked entry is a merge commit, every identifier
/// survives the filter, in walk order.
pub proof fn lemma_no_merges_all_eligible<T>(entries: Seq<(T, usize)>)
    requires
        forall|k: int| 0 <= k < entries.len() ==> !is_merge(#[trigger] entries[k].1),
    ensures
        eligible_ids(entries).len() == entries.len(),
        forall|k: int|
            0 <= k < entries.len() ==> eligible_ids(entries)[k] == #[trigger] entries[k].0,
    decreases entries.len(),
{
    if entries.len() > 0 {
        let prefix = entries.drop_last();
        assert(!is_merge(entries[entries.len() - 1].1));
        assert forall|k: int| 0 <= k < prefix.len() implies !is_merge(#[trigger] prefix[k].1) by {
            assert(prefix[k] == entries[k]);
        }
        lemma_no_merges_all_eligible(prefix);
        assert forall|k: int|
            0 <= k < entries.len() implies eligible_ids(entries)[k] == #[trigger] entries[k].0 by {
            if k < entries.len() - 1 {
                assert(prefix[k] == entries[k]);
            }
        }
    }
}

} // verus!
