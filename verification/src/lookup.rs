//! Finding a row by its identifier.

use vstd::prelude::*;
use vstd::string::*;

verus! {

/// A row that is found by the text of an identifier.
pub trait Keyed {
    /// The identifier's text.
    spec fn key(&self) -> Seq<char>;

    fn key_text(&self) -> (text: &String)
        ensures
            text@ == self.key(),
    ;
}

/// The keys of a table, row by row.
pub open spec fn keys_of<T: Keyed>(rows: Seq<T>) -> Seq<Seq<char>> {
    Seq::new(rows.len(), |i: int| rows[i].key())
}

/// The place of the first key that equals `key`.
pub open spec fn first_index(keys: Seq<Seq<char>>, key: Seq<char>) -> Option<int>
    decreases keys.len(),
{
    if keys.len() == 0 {
        None
    } else {
        match first_index(keys.drop_last(), key) {
            Some(i) => Some(i),
            None => if keys.last() == key {
                Some(keys.len() - 1)
            } else {
                None
            },
        }
    }
}

/// `first_index` gives the least place that holds the key, and none exactly where no place
/// holds it.
pub proof fn lemma_first_index(keys: Seq<Seq<char>>, key: Seq<char>)
    ensures
        match first_index(keys, key) {
            Some(i) => 0 <= i < keys.len() && keys[i] == key && forall|j: int|
                0 <= j < i ==> keys[j] != key,
            None => forall|j: int| 0 <= j < keys.len() ==> keys[j] != key,
        },
    decreases keys.len(),
{
    if keys.len() > 0 {
        lemma_first_index(keys.drop_last(), key);
        assert forall|j: int| 0 <= j < keys.len() - 1 implies keys[j] == keys.drop_last()[j] by {}
    }
}

/// A key found in a prefix is found at the same place in the whole.
pub proof fn lemma_first_index_prefix(keys: Seq<Seq<char>>, key: Seq<char>, n: int)
    requires
        0 <= n <= keys.len(),
        first_index(keys.take(n), key) is Some,
    ensures
        first_index(keys, key) == first_index(keys.take(n), key),
    decreases keys.len(),
{
    if keys.len() == n {
        assert(keys.take(n) =~= keys);
    } else {
        assert(keys.drop_last().take(n) =~= keys.take(n));
        lemma_first_index_prefix(keys.drop_last(), key, n);
    }
}

/// Finds the first row with the given key.
pub fn find_keyed<T: Keyed>(rows: &Vec<T>, key: &String) -> (found: Option<usize>)
    ensures
        found is Some ==> found->0 < rows.len(),
        first_index(keys_of(rows@), key@) == match found {
            Some(i) => Some(i as int),
            None => None,
        },
{
    let ghost keys = keys_of(rows@);
    let mut i: usize = 0;
    while i < rows.len()
        invariant
            i <= rows.len(),
            keys == keys_of(rows@),
            first_index(keys.take(i as int), key@) is None,
        decreases rows.len() - i,
    {
        proof {
            assert(keys.take(i + 1).drop_last() =~= keys.take(i as int));
            assert(keys.take(i + 1).last() == rows@[i as int].key());
        }
        if *rows[i].key_text() == *key {
            proof {
                lemma_first_index_prefix(keys, key@, i + 1);
            }
            return Some(i);
        }
        i += 1;
    }
    proof {
        assert(keys.take(rows.len() as int) =~= keys);
    }
    None
}

} // verus!
