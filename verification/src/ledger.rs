//! Putting together the pages of a player's transaction history.

use vstd::prelude::*;
use std::collections::HashSet;

verus! {

/// The transaction at position `i` of a page is new: its id was not seen on
/// an earlier page and does not stand earlier on this page.
pub open spec fn is_unseen(seen: Set<u64>, page: Seq<u64>, i: int) -> bool {
    &&& 0 <= i < page.len()
    &&& !seen.contains(page[i])
    &&& forall|j: int| 0 <= j < i ==> page[j] != page[i]
}

/// The ids that are known once the first `n` ids of a page are taken in.
pub open spec fn seen_after(seen: Set<u64>, page: Seq<u64>, n: int) -> Set<u64> {
    Set::new(|id: u64| seen.contains(id) || exists|j: int| 0 <= j < n && page[j] == id)
}

/// Takes in one page of transaction ids and returns the positions of the
/// transactions to keep: those that are new, in the order of the page. The
/// ids of the page are known from then on.
pub fn unseen_positions(seen: &mut HashSet<u64>, page: &[u64]) -> (keep: Vec<usize>)
    ensures
        final(seen)@ == seen_after(old(seen)@, page@, page@.len() as int),
        forall|k: int| 0 <= k < keep@.len() ==> is_unseen(old(seen)@, page@, #[trigger] keep@[k] as int),
        forall|k: int, l: int| 0 <= k < l < keep@.len() ==> keep@[k] < keep@[l],
        forall|i: int| is_unseen(old(seen)@, page@, i) ==> keep@.contains(i as usize),
{
    broadcast use vstd::std_specs::hash::group_hash_axioms;

    let mut keep: Vec<usize> = Vec::new();
    let mut i: usize = 0;
    proof {
        assert(seen@ =~= seen_after(old(seen)@, page@, 0));
    }
    while i < page.len()
        invariant
            i <= page.len(),
            seen@ == seen_after(old(seen)@, page@, i as int),
            forall|k: int|
                0 <= k < keep@.len() ==> is_unseen(old(seen)@, page@, #[trigger] keep@[k] as int)
                    && keep@[k] < i,
            forall|k: int, l: int| 0 <= k < l < keep@.len() ==> keep@[k] < keep@[l],
            forall|p: int| 0 <= p < i && is_unseen(old(seen)@, page@, p) ==> keep@.contains(p as usize),
        decreases page.len() - i,
    {
        let id: u64 = page[i];
        let ghost before = keep@;
        let fresh: bool = seen.insert(id);
        if fresh {
            keep.push(i);
        }
        proof {
            assert(seen@ =~= seen_after(old(seen)@, page@, i + 1)) by {
                assert forall|x: u64|
                    seen@.contains(x) <==> seen_after(old(seen)@, page@, i + 1).contains(x) by {
                    if x == id {
                        assert(page@[i as int] == x);
                    }
                }
            }
            assert forall|p: int| 0 <= p < i + 1 && is_unseen(old(seen)@, page@, p) implies keep@.contains(
                p as usize,
            ) by {
                if p < i {
                    let k = choose|k: int| 0 <= k < before.len() && before[k] == p as usize;
                    assert(keep@[k] == p as usize);
                } else {
                    assert(fresh);
                    assert(keep@[keep@.len() - 1] == i);
                }
            }
        }
        i = i + 1;
    }
    keep
}

} // verus!
