use vstd::prelude::*;

verus! {

#[verifier::external_type_specification]
#[verifier::external_body]
#[verifier::reject_recursive_types(TKey)]
#[verifier::reject_recursive_types(TValue)]
pub struct ExSmallMap<TKey, TValue>(smallmap::Map<TKey, TValue>);

/// The join map: for each thread identifier, the identifiers of the threads
/// waiting for that thread to exit, in the order in which they started waiting.
pub type JoinMap = smallmap::Map<usize, Vec<usize>>;

/// What a join map holds, as a map from thread identifier to its waiters: for
/// each key, the value that a lookup finds.
pub uninterp spec fn join_entries(m: JoinMap) -> Map<usize, Seq<usize>>;

/// Whether no key of the map is held in two of its pages. A smallmap stores a
/// key in the first page with room at the key's slot, so inserting a key that
/// sits in a later page behind a freed slot would hold it twice.
pub uninterp spec fn join_map_unique(m: JoinMap) -> bool;

/// Relies on smallmap::Map::new: a new map is one blank page, so it holds no
/// entry and no key twice.
#[verifier::external_body]
pub(crate) fn join_map_new() -> (r: JoinMap)
    ensures
        join_entries(r).dom() == Set::<usize>::empty(),
        join_map_unique(r),
{
    smallmap::Map::new()
}

/// Relies on smallmap::Map::insert: a key that no page holds is stored once,
/// so it maps to the value afterwards, the other entries stay, no key comes to
/// be held twice, and nothing is returned. (A key already present is never
/// inserted: behind a freed slot it could end up held twice.)
#[verifier::external_body]
pub(crate) fn join_map_insert(m: &mut JoinMap, key: usize, value: Vec<usize>) -> (r: Option<Vec<usize>>)
    requires
        !join_entries(*old(m)).contains_key(key),
    ensures
        join_entries(*final(m)) == join_entries(*old(m)).insert(key, value@),
        join_map_unique(*old(m)) ==> join_map_unique(*final(m)),
        r is None,
{
    m.insert(key, value)
}

/// Relies on smallmap::Map::remove: it takes the key from the first page that
/// holds it and returns that value, the one a lookup finds. Where no key is
/// held twice, the key has no entry afterwards and the other entries stay.
#[verifier::external_body]
pub(crate) fn join_map_remove(m: &mut JoinMap, key: usize) -> (r: Option<Vec<usize>>)
    ensures
        join_map_unique(*old(m)) ==> join_entries(*final(m)) == join_entries(*old(m)).remove(key),
        join_map_unique(*old(m)) ==> join_map_unique(*final(m)),
        r.is_some() == join_entries(*old(m)).contains_key(key),
        r.is_some() ==> r.unwrap()@ == join_entries(*old(m))[key],
{
    m.remove(&key)
}

/// Relies on smallmap::Map::contains_key: whether the key has an entry.
#[verifier::external_body]
pub(crate) fn join_map_contains_key(m: &JoinMap, key: usize) -> (r: bool)
    ensures
        r == join_entries(*m).contains_key(key),
{
    m.contains_key(&key)
}

} // verus!
