//! Removing the marked items of a list, each by moving the last item into
//! its place.
use vstd::prelude::*;
use vstd::multiset::*;
use vstd::seq_lib::*;

verus! {

/// `s` without the item at `i`: the last item takes its place.
pub open spec fn swap_removed<T>(s: Seq<T>, i: int) -> Seq<T> {
    s.update(i, s.last()).drop_last()
}

/// `s` after a walk from index `n - 1` down to index `0` that removes every
/// item it finds marked, each by `swap_removed`.
pub open spec fn swept<T>(s: Seq<T>, marked: spec_fn(T) -> bool, n: nat) -> Seq<T>
    decreases n,
{
    if n == 0 {
        s
    } else if marked(s[n - 1]) {
        swept(swap_removed(s, n - 1), marked, (n - 1) as nat)
    } else {
        swept(s, marked, (n - 1) as nat)
    }
}

/// Removing an item by moving the last into its place takes one occurrence
/// of that item out of the list and leaves every other item.
pub proof fn lemma_swap_removed_items<T>(s: Seq<T>, i: int)
    requires
        0 <= i < s.len(),
    ensures
        swap_removed(s, i).len() == s.len() - 1,
        swap_removed(s, i).to_multiset() == s.to_multiset().remove(s[i]),
{
    broadcast use group_multiset_axioms;

    let last = s.len() - 1;
    let u = s.update(i, s.last());
    to_multiset_update(s, i, s.last());
    to_multiset_remove(u, last);
    to_multiset_contains(s, s[i]);
    to_multiset_contains(s, s.last());
}

/// A walk over the whole list, or over a front part behind which nothing is
/// marked, removes exactly the marked items: nothing marked is left, and
/// every other item is left as often as it was there.
pub proof fn lemma_swept_items<T>(s: Seq<T>, marked: spec_fn(T) -> bool, n: nat)
    requires
        n <= s.len(),
        forall|k: int| n <= k < s.len() ==> !marked(#[trigger] s[k]),
    ensures
        swept(s, marked, n).len() <= s.len(),
        forall|k: int| 0 <= k < swept(s, marked, n).len() ==> !marked(#[trigger] swept(s, marked, n)[k]),
        swept(s, marked, n).to_multiset() == s.to_multiset().filter(|x: T| !marked(x)),
    decreases n,
{
    broadcast use group_multiset_axioms;

    let kept = |x: T| !marked(x);
    if n == 0 {
        assert forall|x: T| s.to_multiset().count(x) == #[trigger] s.to_multiset().filter(kept).count(x) by {
            to_multiset_contains(s, x);
        }
    } else if marked(s[n - 1]) {
        let t = swap_removed(s, n - 1);
        lemma_swap_removed_items(s, n - 1);
        assert forall|k: int| n - 1 <= k < t.len() implies !marked(#[trigger] t[k]) by {}
        lemma_swept_items(t, marked, (n - 1) as nat);
    } else {
        lemma_swept_items(s, marked, (n - 1) as nat);
    }
}

} // verus!
