//! The insertion-ordered map of `indexmap`, holding text keys and values,
//! as far as the library uses it: made empty, then filled by `insert`.

use indexmap::IndexMap;
use vstd::prelude::*;

verus! {

#[verifier::external_type_specification]
#[verifier::external_body]
#[verifier::reject_recursive_types(K)]
#[verifier::reject_recursive_types(V)]
#[verifier::reject_recursive_types(S)]
pub struct ExIndexMap<K, V, S>(IndexMap<K, V, S>);

/// The entries of a map, in the map's order, each as its key's and value's
/// characters.
pub uninterp spec fn index_map_entries(m: IndexMap<String, String>) -> Seq<(Seq<char>, Seq<char>)>;

/// The entries after inserting `key` with `value`: an existing entry for the
/// key keeps its place and takes the new value; otherwise the entry goes
/// last.
pub open spec fn entries_insert(
    entries: Seq<(Seq<char>, Seq<char>)>,
    key: Seq<char>,
    value: Seq<char>,
) -> Seq<(Seq<char>, Seq<char>)> {
    if exists|i: int| 0 <= i < entries.len() && #[trigger] entries[i].0 == key {
        let i = choose|i: int| 0 <= i < entries.len() && #[trigger] entries[i].0 == key;
        entries.update(i, (key, value))
    } else {
        entries.push((key, value))
    }
}

/// `IndexMap::new`: a map without entries.
#[verifier::external_body]
pub(crate) fn index_map_new() -> (r: IndexMap<String, String>)
    ensures
        index_map_entries(r) == Seq::<(Seq<char>, Seq<char>)>::empty(),
{
    IndexMap::new()
}

/// `IndexMap::insert`, as its documentation states it: a key already in
/// the map keeps its place in the order and its value is replaced; a new
/// key is added last (`entries_insert`). The returned old value is not
/// used.
#[verifier::external_body]
pub(crate) fn index_map_insert(m: &mut IndexMap<String, String>, key: String, value: String)
    ensures
        index_map_entries(*final(m)) == entries_insert(index_map_entries(*old(m)), key@, value@),
{
    m.insert(key, value);
}

} // verus!
