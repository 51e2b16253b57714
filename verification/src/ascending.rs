//! Putting numbers in ascending order.

use vstd::prelude::*;
use vstd::relations::*;
use vstd::seq_lib::*;

verus! {

/// The order in which numbers are put: smaller first.
pub open spec fn ascending() -> spec_fn(u64, u64) -> bool {
    |a: u64, b: u64| a <= b
}

/// `ascending` compares any two numbers, and orders them as a line.
pub proof fn lemma_ascending_is_total()
    ensures
        total_ordering(ascending()),
{
}

/// Two sequences that hold the same numbers equally often are the same once sorted.
pub proof fn lemma_sort_ignores_arrangement(a: Seq<u64>, b: Seq<u64>)
    requires
        a.to_multiset() == b.to_multiset(),
    ensures
        a.sort_by(ascending()) == b.sort_by(ascending()),
{
    lemma_ascending_is_total();
    a.lemma_sort_by_ensures(ascending());
    b.lemma_sort_by_ensures(ascending());
    lemma_sorted_unique(a.sort_by(ascending()), b.sort_by(ascending()), ascending());
}

/// The numbers of `items` in ascending order.
pub fn sorted(items: &Vec<u64>) -> (out: Vec<u64>)
    ensures
        out@ == items@.sort_by(ascending()),
{
    let mut out: Vec<u64> = Vec::new();
    let mut i: usize = 0;
    assert(items@.take(0) =~= Seq::<u64>::empty());
    while i < items.len()
        invariant
            i <= items.len(),
            sorted_by(out@, ascending()),
            out@.to_multiset() == items@.take(i as int).to_multiset(),
        decreases items.len() - i,
    {
        let x = items[i];
        let mut j: usize = 0;
        while j < out.len() && out[j] <= x
            invariant
                j <= out.len(),
                forall|k: int| 0 <= k < j ==> out@[k] <= x,
            decreases out.len() - j,
        {
            j += 1;
        }
        let ghost before = out@;
        out.insert(j, x);
        assert(sorted_by(out@, ascending())) by {
            assert forall|a: int, b: int| 0 <= a < b < out@.len() implies ascending()(
                out@[a],
                out@[b],
            ) by {
                if a == j && b > j + 1 {
                    assert(ascending()(before[j as int], before[b - 1]));
                }
            }
        }
        assert(out@.to_multiset() == items@.take(i + 1).to_multiset()) by {
            assert(out@ == before.insert(j as int, x));
            assert(items@.take(i + 1) =~= items@.take(i as int).push(x));
            to_multiset_insert(before, j as int, x);
            to_multiset_build(items@.take(i as int), x);
        }
        i += 1;
    }
    assert(items@.take(items.len() as int) =~= items@);
    proof {
        lemma_ascending_is_total();
        items@.lemma_sort_by_ensures(ascending());
        lemma_sorted_unique(out@, items@.sort_by(ascending()), ascending());
    }
    out
}

} // verus!
