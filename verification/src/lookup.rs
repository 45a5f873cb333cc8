//! Finding an entry by its symbol in a list that is searched front to back.

use vstd::prelude::*;

verus! {

/// The texts of a list of strings.
pub open spec fn texts(strings: Seq<String>) -> Seq<Seq<char>> {
    Seq::new(strings.len(), |i: int| strings[i]@)
}

/// Whether `i` is the first place at which `key` stands in `keys`.
pub open spec fn is_first(keys: Seq<Seq<char>>, key: Seq<char>, i: int) -> bool {
    &&& 0 <= i < keys.len()
    &&& keys[i] == key
    &&& forall|j: int| 0 <= j < i ==> keys[j] != key
}

/// The first place at which `key` stands in `keys`, if it stands there at all.
pub open spec fn first_index(keys: Seq<Seq<char>>, key: Seq<char>) -> Option<int> {
    if exists|i: int| is_first(keys, key, i) {
        Some(choose|i: int| is_first(keys, key, i))
    } else {
        None
    }
}

/// There is only one first place.
pub proof fn lemma_first_index_is(keys: Seq<Seq<char>>, key: Seq<char>, i: int)
    requires
        is_first(keys, key, i),
    ensures
        first_index(keys, key) == Some(i),
{
    // the place chosen is a first place too, and two first places coincide
    let k = choose|k: int| is_first(keys, key, k);
    assert(!(k < i) && !(i < k));
}

/// A key that stands somewhere has a first place, at or before any place at
/// which it stands.
pub proof fn lemma_first_index_exists(keys: Seq<Seq<char>>, key: Seq<char>, i: int)
    requires
        0 <= i < keys.len(),
        keys[i] == key,
    ensures
        first_index(keys, key).is_some(),
        first_index(keys, key).unwrap() <= i,
    decreases i,
{
    if exists|j: int| 0 <= j < i && keys[j] == key {
        let j = choose|j: int| 0 <= j < i && keys[j] == key;
        lemma_first_index_exists(keys, key, j);
    } else {
        lemma_first_index_is(keys, key, i);
    }
}

/// A key that stands nowhere has no first place.
pub proof fn lemma_first_index_none(keys: Seq<Seq<char>>, key: Seq<char>)
    requires
        forall|j: int| 0 <= j < keys.len() ==> keys[j] != key,
    ensures
        first_index(keys, key).is_none(),
{
}

/// Appending a key changes the first place of no other key, and gives the new
/// key a first place at the end if it stood nowhere.
pub proof fn lemma_first_index_push(keys: Seq<Seq<char>>, added: Seq<char>, key: Seq<char>)
    ensures
        key != added ==> first_index(keys.push(added), key) == first_index(keys, key),
        (forall|j: int| 0 <= j < keys.len() ==> keys[j] != added) ==> first_index(
            keys.push(added),
            added,
        ) == Some(keys.len() as int),
{
    let longer = keys.push(added);
    if key != added {
        if first_index(keys, key).is_some() {
            let i = first_index(keys, key).unwrap();
            assert(is_first(longer, key, i));
            lemma_first_index_is(longer, key, i);
        } else if first_index(longer, key).is_some() {
            let i = first_index(longer, key).unwrap();
            assert forall|j: int| 0 <= j < i implies keys[j] != key by {
                assert(longer[j] != key);
            }
            assert(is_first(keys, key, i));
        }
    }
    if forall|j: int| 0 <= j < keys.len() ==> keys[j] != added {
        assert(is_first(longer, added, keys.len() as int));
        lemma_first_index_is(longer, added, keys.len() as int);
    }
}

} // verus!
