//! Facts about sequences that the equivalences rest on.

use vstd::prelude::*;

verus! {

/// Where a sequence without repetitions is contained in another of the same
/// length, the other has no repetitions either and is contained in the
/// first.
pub proof fn lemma_contained_both_ways<A>(a: Seq<A>, b: Seq<A>)
    requires
        a.no_duplicates(),
        a.len() == b.len(),
        forall|i: int| 0 <= i < a.len() ==> b.contains(#[trigger] a[i]),
    ensures
        forall|j: int| 0 <= j < b.len() ==> a.contains(#[trigger] b[j]),
        b.no_duplicates(),
{
    broadcast use vstd::seq_lib::seq_to_set_is_finite;

    a.unique_seq_to_set();
    b.lemma_cardinality_of_set();
    assert(a.to_set().subset_of(b.to_set())) by {
        assert forall|x: A| a.to_set().contains(x) implies b.to_set().contains(x) by {
            let i = choose|i: int| 0 <= i < a.len() && a[i] == x;
            assert(b.contains(a[i]));
        }
    }
    vstd::set_lib::lemma_len_subset(a.to_set(), b.to_set());
    vstd::set_lib::lemma_subset_equality(a.to_set(), b.to_set());
    b.lemma_no_dup_set_cardinality();
    assert forall|j: int| 0 <= j < b.len() implies a.contains(#[trigger] b[j]) by {
        assert(b.to_set().contains(b[j]));
        assert(a.to_set().contains(b[j]));
    }
}

} // verus!
