//! A map from item keys to values that keeps its entries in the order in which
//! they were first inserted.

use crate::seqs::{first_from, first_index, lemma_first_from};
use crate::structs::{KeyView, NFTKey};
use vstd::prelude::*;

verus! {

/// The test that tells the entry of `key` from the others.
pub open spec fn keyed<X>(key: KeyView) -> spec_fn((KeyView, X)) -> bool {
    |entry: (KeyView, X)| entry.0 == key
}

/// The position of the entry of `key`.
pub open spec fn position<X>(entries: Seq<(KeyView, X)>, key: KeyView) -> Option<int> {
    first_index(entries, keyed(key))
}

/// Whether `key` has an entry.
pub open spec fn has_key<X>(entries: Seq<(KeyView, X)>, key: KeyView) -> bool {
    position(entries, key) is Some
}

/// The value that `key` maps to.
pub open spec fn lookup<X>(entries: Seq<(KeyView, X)>, key: KeyView) -> Option<X> {
    match position(entries, key) {
        Some(at) => Some(entries[at].1),
        None => None,
    }
}

/// No key has two entries.
pub open spec fn distinct_keys<X>(entries: Seq<(KeyView, X)>) -> bool {
    forall|i: int, j: int|
        0 <= i < j < entries.len() ==> (#[trigger] entries[i]).0 != (#[trigger] entries[j]).0
}

/// The keys, in the order of the entries.
pub open spec fn keys_of<X>(entries: Seq<(KeyView, X)>) -> Seq<KeyView> {
    entries.map_values(|entry: (KeyView, X)| entry.0)
}

/// The entries once `key` maps to `value`: its entry is replaced where it stands,
/// or, where it had none, added at the end.
pub open spec fn inserted<X>(entries: Seq<(KeyView, X)>, key: KeyView, value: X) -> Seq<
    (KeyView, X),
> {
    match position(entries, key) {
        Some(at) => entries.update(at, (key, value)),
        None => entries.push((key, value)),
    }
}

/// The entries once `key` has an entry: the one it had, or else a new one at the
/// end that maps it to `value`.
pub open spec fn added<X>(entries: Seq<(KeyView, X)>, key: KeyView, value: X) -> Seq<
    (KeyView, X),
> {
    match position(entries, key) {
        Some(_) => entries,
        None => entries.push((key, value)),
    }
}

/// The entries without that of `key`.
pub open spec fn without<X>(entries: Seq<(KeyView, X)>, key: KeyView) -> Seq<(KeyView, X)> {
    match position(entries, key) {
        Some(at) => entries.remove(at),
        None => entries,
    }
}

/// What the position of a key says of the entries.
pub proof fn lemma_position<X>(entries: Seq<(KeyView, X)>, key: KeyView)
    ensures
        match position(entries, key) {
            Some(at) => 0 <= at < entries.len() && entries[at].0 == key && forall|j: int|
                0 <= j < at ==> (#[trigger] entries[j]).0 != key,
            None => forall|j: int| 0 <= j < entries.len() ==> (#[trigger] entries[j]).0 != key,
        },
{
    lemma_first_from(entries, keyed(key), 0);
}

/// A key that no entry holds has no position.
pub proof fn lemma_absent<X>(entries: Seq<(KeyView, X)>, key: KeyView)
    requires
        forall|j: int| 0 <= j < entries.len() ==> (#[trigger] entries[j]).0 != key,
    ensures
        position(entries, key) is None,
{
    lemma_position(entries, key);
}

/// Inserting, adding and removing keep the keys distinct.
pub proof fn lemma_distinct_kept<X>(entries: Seq<(KeyView, X)>, key: KeyView, value: X)
    requires
        distinct_keys(entries),
    ensures
        distinct_keys(inserted(entries, key, value)),
        distinct_keys(added(entries, key, value)),
        distinct_keys(without(entries, key)),
        !has_key(without(entries, key), key),
        lookup(inserted(entries, key, value), key) == Some(value),
        has_key(added(entries, key, value), key),
{
    lemma_position(entries, key);
    lemma_position(without(entries, key), key);
    lemma_position(inserted(entries, key, value), key);
    lemma_position(added(entries, key, value), key);
    match position(entries, key) {
        Some(at) => {
            let changed = entries.update(at, (key, value));
            assert forall|i: int, j: int| 0 <= i < j < changed.len() implies (
            #[trigger] changed[i]).0 != (#[trigger] changed[j]).0 by {
                assert(changed[i].0 == entries[i].0);
                assert(changed[j].0 == entries[j].0);
            }
            let rest = entries.remove(at);
            assert forall|i: int, j: int| 0 <= i < j < rest.len() implies (#[trigger] rest[i]).0
                != (#[trigger] rest[j]).0 by {
                let from_i = if i < at {
                    i
                } else {
                    i + 1
                };
                let from_j = if j < at {
                    j
                } else {
                    j + 1
                };
                assert(rest[i] == entries[from_i]);
                assert(rest[j] == entries[from_j]);
            }
            assert forall|j: int| 0 <= j < rest.len() implies (#[trigger] rest[j]).0 != key by {
                let from_j = if j < at {
                    j
                } else {
                    j + 1
                };
                assert(rest[j] == entries[from_j]);
            }
            assert(changed[at].0 == key);
        },
        None => {
            let longer = entries.push((key, value));
            assert forall|i: int, j: int| 0 <= i < j < longer.len() implies (
            #[trigger] longer[i]).0 != (#[trigger] longer[j]).0 by {
                if j < entries.len() {
                    assert(longer[i] == entries[i]);
                    assert(longer[j] == entries[j]);
                } else {
                    assert(longer[i] == entries[i]);
                }
            }
            assert(longer[entries.len() as int].0 == key);
        },
    }
}

/// The position of a key depends on the keys alone.
pub proof fn lemma_position_by_keys<X, Y>(
    entries: Seq<(KeyView, X)>,
    others: Seq<(KeyView, Y)>,
    key: KeyView,
)
    requires
        keys_of(entries) == keys_of(others),
    ensures
        position(entries, key) == position(others, key),
        entries.len() == others.len(),
{
    lemma_position(entries, key);
    lemma_position(others, key);
    assert(entries.len() == keys_of(entries).len());
    assert(others.len() == keys_of(others).len());
    assert forall|j: int| 0 <= j < entries.len() implies (#[trigger] entries[j]).0
        == others[j].0 by {
        assert(keys_of(entries)[j] == entries[j].0);
        assert(keys_of(others)[j] == others[j].0);
    }
    match position(entries, key) {
        Some(at) => {
            assert(others[at].0 == key);
            match position(others, key) {
                Some(other_at) => {
                    assert(entries[other_at].0 == key);
                },
                None => {},
            }
        },
        None => {
            match position(others, key) {
                Some(other_at) => {
                    assert(entries[other_at].0 == key);
                },
                None => {},
            }
        },
    }
}

/// Two maps with the same keys have the same keys after the same change.
pub proof fn lemma_keys_kept<X, Y>(
    entries: Seq<(KeyView, X)>,
    others: Seq<(KeyView, Y)>,
    key: KeyView,
    value: X,
    other_value: Y,
)
    requires
        keys_of(entries) == keys_of(others),
    ensures
        keys_of(added(entries, key, value)) == keys_of(inserted(others, key, other_value)),
        keys_of(added(entries, key, value)) == keys_of(added(others, key, other_value)),
        keys_of(without(entries, key)) == keys_of(without(others, key)),
{
    lemma_position_by_keys(entries, others, key);
    lemma_position(entries, key);
    assert forall|j: int| 0 <= j < entries.len() implies (#[trigger] entries[j]).0
        == others[j].0 by {
        assert(keys_of(entries)[j] == entries[j].0);
        assert(keys_of(others)[j] == others[j].0);
    }
    assert(keys_of(added(entries, key, value)) =~= keys_of(inserted(others, key, other_value)));
    assert(keys_of(added(entries, key, value)) =~= keys_of(added(others, key, other_value)));
    assert(keys_of(without(entries, key)) =~= keys_of(without(others, key)));
}

/// The entries of a list, each a key with the view of its value.
pub open spec fn entries_view<V: View>(entries: Seq<(NFTKey, V)>) -> Seq<(KeyView, V::V)> {
    entries.map_values(|entry: (NFTKey, V)| (entry.0@, entry.1@))
}

/// One entry of a map.
#[derive(Debug, PartialEq, Eq)]
struct Entry<V> {
    key: NFTKey,
    value: V,
}

/// A map from item keys to values. Its view is the sequence of its entries, each
/// a key with the view of its value, in the order of first insertion.
#[derive(Debug, PartialEq, Eq)]
pub struct NftMap<V> {
    entries: Vec<Entry<V>>,
}

impl<V: View> View for NftMap<V> {
    type V = Seq<(KeyView, V::V)>;

    closed spec fn view(&self) -> Seq<(KeyView, V::V)> {
        Seq::new(
            self.entries@.len(),
            |i: int| (self.entries@[i].key@, self.entries@[i].value@),
        )
    }
}

impl<V: View> NftMap<V> {
    /// No key has two entries.
    pub open spec fn wf(&self) -> bool {
        distinct_keys(self@)
    }

    /// The map without entries.
    pub fn new() -> (map: Self)
        ensures
            map@ == Seq::<(KeyView, V::V)>::empty(),
            map.wf(),
    {
        let map = NftMap { entries: Vec::new() };
        assert(map@ =~= Seq::<(KeyView, V::V)>::empty());
        map
    }

    /// The number of entries.
    pub fn len(&self) -> (len: usize)
        ensures
            len == self@.len(),
    {
        self.entries.len()
    }

    /// The key of the entry at position `at`.
    pub fn key(&self, at: usize) -> (key: &NFTKey)
        requires
            at < self@.len(),
        ensures
            key@ == self@[at as int].0,
    {
        &self.entries[at].key
    }

    /// The value of the entry at position `at`.
    pub fn value(&self, at: usize) -> (value: &V)
        requires
            at < self@.len(),
        ensures
            value@ == self@[at as int].1,
    {
        &self.entries[at].value
    }

    /// Puts `value` in the place of the value at position `at`.
    pub fn set_value(&mut self, at: usize, value: V)
        requires
            at < old(self)@.len(),
        ensures
            final(self)@ == old(self)@.update(at as int, (old(self)@[at as int].0, value@)),
            old(self).wf() ==> final(self).wf(),
    {
        self.entries[at].value = value;
        assert(final(self)@ =~= old(self)@.update(at as int, (old(self)@[at as int].0, value@)));
    }

    /// The position of the entry of `key`.
    pub fn position(&self, key: &NFTKey) -> (found: Option<usize>)
        ensures
            found is Some == position(self@, key@) is Some,
            found matches Some(at) ==> position(self@, key@) == Some(at as int) && at < self@.len(),
    {
        let mut at: usize = 0;
        while at < self.entries.len()
            invariant
                at <= self.entries.len(),
                position(self@, key@) == first_from(self@, keyed(key@), at as int),
            decreases self.entries.len() - at,
        {
            if self.entries[at].key == *key {
                return Some(at);
            }
            at += 1;
        }
        None
    }

    /// Whether `key` has an entry.
    pub fn contains_key(&self, key: &NFTKey) -> (found: bool)
        ensures
            found == has_key(self@, key@),
    {
        self.position(key).is_some()
    }

    /// The value that `key` maps to.
    pub fn get(&self, key: &NFTKey) -> (found: Option<&V>)
        ensures
            match found {
                Some(value) => lookup(self@, key@) == Some(value@),
                None => lookup(self@, key@) is None,
            },
    {
        match self.position(key) {
            Some(at) => Some(&self.entries[at].value),
            None => None,
        }
    }

    /// Maps `key` to `value`, in place of what it mapped to before.
    pub fn insert(&mut self, key: NFTKey, value: V)
        requires
            old(self).wf(),
        ensures
            final(self)@ == inserted(old(self)@, key@, value@),
            final(self).wf(),
    {
        proof {
            lemma_distinct_kept(self@, key@, value@);
        }
        match self.position(&key) {
            Some(at) => {
                self.entries[at] = Entry { key, value };
                assert(final(self)@ =~= inserted(old(self)@, key@, value@));
            },
            None => {
                self.entries.push(Entry { key, value });
                assert(final(self)@ =~= inserted(old(self)@, key@, value@));
            },
        }
    }

    /// Maps `key` to `value` unless it has an entry already.
    pub fn insert_if_absent(&mut self, key: NFTKey, value: V)
        requires
            old(self).wf(),
        ensures
            final(self)@ == added(old(self)@, key@, value@),
            final(self).wf(),
    {
        proof {
            lemma_distinct_kept(self@, key@, value@);
        }
        if self.position(&key).is_none() {
            self.entries.push(Entry { key, value });
            assert(final(self)@ =~= added(old(self)@, key@, value@));
        }
    }

    /// The map of a list of entries, unless a key has two entries in the list.
    pub fn from_entries(entries: Vec<(NFTKey, V)>) -> (made: Option<Self>)
        ensures
            match made {
                Some(map) => map@ == entries_view(entries@) && map.wf(),
                None => !distinct_keys(entries_view(entries@)),
            },
    {
        broadcast use vstd::std_specs::vec::axiom_spec_into_iter;

        let ghost all = entries_view(entries@);
        let mut map: Self = NftMap::new();
        for entry in it: entries.into_iter()
            invariant
                it.seq() == entries@,
                all == entries_view(entries@),
                map.wf(),
                map@ == all.subrange(0, it.index()),
        {
            let (key, value) = entry;
            proof {
                lemma_position(map@, key@);
            }
            match map.position(&key) {
                Some(at) => {
                    assert(all[at as int].0 == all[it.index()].0);
                    return None;
                },
                None => {
                    map.insert_if_absent(key, value);
                    assert(map@ =~= all.subrange(0, it.index() + 1));
                },
            }
        }
        assert(map@ =~= all);
        Some(map)
    }

    /// Takes out the entry of `key`, if there is one, and hands back its value.
    pub fn remove(&mut self, key: &NFTKey) -> (removed: Option<V>)
        requires
            old(self).wf(),
        ensures
            final(self)@ == without(old(self)@, key@),
            final(self).wf(),
            match removed {
                Some(value) => lookup(old(self)@, key@) == Some(value@),
                None => lookup(old(self)@, key@) is None,
            },
    {
        proof {
            lemma_distinct_kept(self@, key@, arbitrary());
        }
        match self.position(key) {
            Some(at) => {
                let entry = self.entries.remove(at);
                assert(final(self)@ =~= without(old(self)@, key@));
                Some(entry.value)
            },
            None => None,
        }
    }
}

} // verus!
