//! Identifiers of ordered collections, enumerated smallest first.
use vstd::prelude::*;
use std::collections::{BTreeMap, BTreeSet};
use vstd::std_specs::btree::{spec_btree_keys_iter, spec_keys_iter, increasing_seq};
use vstd::std_specs::iter::IteratorSpec;
use vstd::std_specs::cmp::OrdSpec;

verus! {

broadcast use {vstd::std_specs::btree::group_btree_axioms, vstd::laws_cmp::group_laws_cmp};

/// `s` lists its elements in strictly increasing order.
pub open spec fn strictly_increasing(s: Seq<u64>) -> bool {
    forall|i: int, j: int| 0 <= i < j < s.len() ==> s[i] < s[j]
}

/// `s` enumerates exactly the members of `set`, in increasing order.
pub open spec fn enumerates(s: Seq<u64>, set: Set<u64>) -> bool {
    &&& strictly_increasing(s)
    &&& forall|i: int| 0 <= i < s.len() ==> set.contains(#[trigger] s[i])
    &&& forall|k: u64| set.contains(k) ==> s.contains(k)
}

/// A sequence of references that the collections report as increasing holds
/// strictly increasing values.
proof fn lemma_increasing_refs(s: Seq<&u64>)
    requires
        increasing_seq(s),
    ensures
        forall|i: int, j: int| 0 <= i < j < s.len() ==> *s[i] < *s[j],
{
    assert(vstd::laws_cmp::obeys_cmp::<u64>());
    assert(vstd::laws_cmp::obeys_cmp::<&u64>());
    assert forall|i: int, j: int| 0 <= i < j < s.len() implies *s[i] < *s[j] by {
        assert(OrdSpec::cmp_spec(&s[i], &s[j]) is Less);
    }
}

/// The members of a set of identifiers, smallest first.
pub(crate) fn set_in_order(set: &BTreeSet<u64>) -> (r: Vec<u64>)
    ensures
        enumerates(r@, set@),
{
    let ghost full = spec_btree_keys_iter(set).remaining();
    let mut r: Vec<u64> = Vec::new();
    for k in it: set.iter()
        invariant
            it.seq() == full,
            r@ == full.take(it.index() as int).map_values(|x: &u64| *x),
    {
        r.push(*k);
    }
    proof {
        assert(r@ == full.unref());
        lemma_increasing_refs(full);
        assert forall|k: u64| set@.contains(k) implies r@.contains(k) by {
            assert(full.unref().to_set().contains(k));
        }
    }
    r
}

/// The keys of a map keyed by identifiers, smallest first.
pub(crate) fn keys_in_order<V>(map: &BTreeMap<u64, V>) -> (r: Vec<u64>)
    ensures
        enumerates(r@, map@.dom()),
{
    let ghost full = spec_keys_iter(map).remaining();
    let mut r: Vec<u64> = Vec::new();
    for k in it: map.keys()
        invariant
            it.seq() == full,
            r@ == full.take(it.index() as int).map_values(|x: &u64| *x),
    {
        r.push(*k);
    }
    proof {
        assert(r@ == full.unref());
        lemma_increasing_refs(full);
        assert forall|k: u64| map@.dom().contains(k) implies r@.contains(k) by {
            assert(full.unref().to_set().contains(k));
        }
    }
    r
}

} // verus!
