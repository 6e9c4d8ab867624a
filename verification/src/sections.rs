//! The commentary sections of a document: titles with their bodies, in the
//! order in which they were inserted.

use indexmap::IndexMap;
use vstd::prelude::*;

verus! {

/// `IndexMap` of indexmap, taken as it is: nothing is known of a map but
/// what the functions below say of it.
#[verifier::external_type_specification]
#[verifier::external_body]
#[verifier::reject_recursive_types(K)]
#[verifier::reject_recursive_types(V)]
#[verifier::reject_recursive_types(S)]
pub struct ExIndexMap<K, V, S>(indexmap::IndexMap<K, V, S>);

/// What a map of sections holds: each title with its body, in the map's
/// order.
pub uninterp spec fn entries(sections: IndexMap<String, String>) -> Seq<(Seq<char>, Seq<char>)>;

/// The titles of `entries`, in order.
pub open spec fn titles_of(entries: Seq<(Seq<char>, Seq<char>)>) -> Seq<Seq<char>> {
    entries.map_values(|entry: (Seq<char>, Seq<char>)| entry.0)
}

/// `IndexMap::keys`, collected. Trusted: it yields the keys of the map in
/// the map's order, one for each entry.
#[verifier::external_body]
pub(crate) fn titles<'a>(sections: &'a IndexMap<String, String>) -> (titles: Vec<&'a String>)
    ensures
        titles@.len() == entries(*sections).len(),
        forall|i: int|
            0 <= i < titles@.len() ==> (#[trigger] titles@[i])@ == entries(*sections)[i].0,
{
    sections.keys().collect()
}

/// `IndexMap::iter`, collected. Trusted: it yields the key and the value of
/// each entry of the map, in the map's order.
#[verifier::external_body]
pub(crate) fn pairs<'a>(sections: &'a IndexMap<String, String>) -> (pairs: Vec<
    (&'a String, &'a String),
>)
    ensures
        pairs@.len() == entries(*sections).len(),
        forall|i: int|
            0 <= i < pairs@.len() ==> (#[trigger] pairs@[i]).0@ == entries(*sections)[i].0
                && pairs@[i].1@ == entries(*sections)[i].1,
{
    sections.iter().collect()
}

} // verus!
