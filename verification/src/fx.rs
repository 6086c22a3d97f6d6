//! An index from names to numbers, kept in a hash map of the `rustc_hash`
//! crate. What the map does is stated here and not proved: each item of this
//! file is a claim about that crate and about `std`'s hash map.
use rustc_hash::FxHashMap;
use vstd::prelude::*;

verus! {

/// The hasher of `rustc_hash`. Nothing is said of it: it is only named so
/// that a map built on it can be held in a field.
#[verifier::external_type_specification]
#[verifier::external_body]
pub struct ExFxHasher(rustc_hash::FxHasher);

/// `std`'s builder of default hashers, the third parameter of `FxHashMap`.
/// Nothing is said of it either.
#[verifier::external_type_specification]
#[verifier::external_body]
#[verifier::reject_recursive_types(H)]
pub struct ExBuildHasherDefault<H>(core::hash::BuildHasherDefault<H>);

/// A map from names to numbers: `rustc_hash::FxHashMap<Vec<u8>, usize>`.
pub type NameIndex = FxHashMap<Vec<u8>, usize>;

/// What a `NameIndex` holds: the number under each name that has one.
pub uninterp spec fn index_entries(m: NameIndex) -> Map<Seq<u8>, usize>;

/// The index that holds nothing.
pub open spec fn no_entries() -> Map<Seq<u8>, usize> {
    Map::empty()
}

/// What a lookup of `key` gives in a map with the entries `entries`.
pub open spec fn entry_at(entries: Map<Seq<u8>, usize>, key: Seq<u8>) -> Option<usize> {
    if entries.dom().contains(key) {
        Some(entries[key])
    } else {
        None
    }
}

/// `FxHashMap::default()`: a new map is empty.
#[verifier::external_body]
pub(crate) fn index_new() -> (m: NameIndex)
    ensures
        index_entries(m) == no_entries(),
{
    FxHashMap::default()
}

/// `HashMap::get`, with the number copied out: the number under `key` if the
/// map holds one. Two keys are the same key when they hold the same bytes.
#[verifier::external_body]
pub(crate) fn index_get(m: &NameIndex, key: &[u8]) -> (r: Option<usize>)
    ensures
        r == entry_at(index_entries(*m), key@),
{
    m.get(key).copied()
}

/// `HashMap::insert`: afterwards the map holds `value` under `key`, in place
/// of what it held there before, and everything else as before.
#[verifier::external_body]
pub(crate) fn index_insert(m: &mut NameIndex, key: Vec<u8>, value: usize)
    ensures
        index_entries(*final(m)) == index_entries(*old(m)).insert(key@, value),
{
    m.insert(key, value);
}

} // verus!
