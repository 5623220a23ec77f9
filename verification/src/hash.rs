//! Cache keys from values.
use vstd::prelude::*;
use std::collections::hash_map::DefaultHasher;
use std::hash::{Hash, Hasher};
use vstd::std_specs::hash::DefaultHasherAdditionalSpecFns;

verus! {

/// Feeds `value` to `state` through its `std::hash::Hash` impl (a call of
/// `Hash::hash`). The bytes written depend on that impl, which is not known
/// here, so nothing is claimed of the state afterwards.
#[verifier::external_body]
fn hash_into<T: Hash>(value: &T, state: &mut DefaultHasher) {
    value.hash(state);
}

/// A hash of `value` from a freshly created `DefaultHasher`. The contract
/// says only that the result is what `DefaultHasher` finishes with after
/// some sequence of writes; which writes `value` makes is up to its `Hash`
/// impl and is not stated, so neither is the value of the result.
pub fn stable_hash<T: Hash>(value: &T) -> (r: u64)
    ensures
        exists|writes: Seq<Seq<u8>>| r == #[trigger] DefaultHasher::spec_finish(writes),
{
    let mut hasher = DefaultHasher::new();
    hash_into(value, &mut hasher);
    hasher.finish()
}

} // verus!
