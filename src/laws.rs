use crate::entry::MockEntry;
use crate::registry::lookup;
use std::any::TypeId;
use vstd::prelude::*;

verus! {

/// A key that was never set is not found, whatever type is asked for.
pub proof fn lemma_unset_key_not_found(m: Map<Seq<char>, MockEntry>, key: Seq<char>, t: TypeId)
    requires
        !m.contains_key(key),
    ensures
        lookup(m, key, t) is None,
{
}

/// A fresh registry finds nothing.
pub proof fn lemma_empty_finds_nothing(key: Seq<char>, t: TypeId)
    ensures
        lookup(Map::<Seq<char>, MockEntry>::empty(), key, t) is None,
{
}

/// After an entry is set under a key, a lookup of that key with the entry's
/// own type finds exactly that entry.
pub proof fn lemma_set_then_get(m: Map<Seq<char>, MockEntry>, key: Seq<char>, e: MockEntry)
    ensures
        lookup(m.insert(key, e), key, e.tag()) == Some(e),
{
}

/// After the guard of a key is released, the key is not found, whatever was
/// set before.
pub proof fn lemma_release_then_get(m: Map<Seq<char>, MockEntry>, key: Seq<char>, e: MockEntry, t: TypeId)
    ensures
        lookup(m.insert(key, e).remove(key), key, t) is None,
        lookup(m.remove(key), key, t) is None,
{
}

/// Setting a second entry under a key already set replaces the first: the
/// last writer wins.
pub proof fn lemma_last_writer_wins(
    m: Map<Seq<char>, MockEntry>,
    key: Seq<char>,
    first: MockEntry,
    second: MockEntry,
)
    ensures
        lookup(m.insert(key, first).insert(key, second), key, second.tag()) == Some(second),
        second.tag() != first.tag() ==> lookup(m.insert(key, first).insert(key, second), key, first.tag()) is None,
{
}

/// Asking for a type other than the one an entry was set with finds nothing,
/// though an entry exists for the key.
pub proof fn lemma_type_mismatch_not_found(m: Map<Seq<char>, MockEntry>, key: Seq<char>, e: MockEntry, t: TypeId)
    requires
        t != e.tag(),
    ensures
        m.insert(key, e).contains_key(key),
        lookup(m.insert(key, e), key, t) is None,
{
}

/// Setting or releasing one key leaves what every other key finds unchanged.
pub proof fn lemma_other_keys_unaffected(
    m: Map<Seq<char>, MockEntry>,
    key: Seq<char>,
    other: Seq<char>,
    e: MockEntry,
    t: TypeId,
)
    requires
        other != key,
    ensures
        lookup(m.insert(key, e), other, t) == lookup(m, other, t),
        lookup(m.remove(key), other, t) == lookup(m, other, t),
{
}

} // verus!
