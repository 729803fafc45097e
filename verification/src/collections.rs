//! Maps and sets keyed by text, kept in the order in which the keys came.

use vstd::prelude::*;
use crate::types::Address;

verus! {

/// Whether no key occurs twice in `entries`.
pub open spec fn distinct_keys<V>(entries: Seq<(String, V)>) -> bool {
    forall|i: int, j: int|
        0 <= i < j < entries.len() ==> (#[trigger] entries[i]).0@ != (#[trigger] entries[j]).0@
}

/// The place of `key` in `entries`, or the length of `entries` if it is not
/// there.
pub open spec fn position<V>(entries: Seq<(String, V)>, key: Seq<char>) -> int
    decreases entries.len(),
{
    if entries.len() == 0 {
        0
    } else if entries[0].0@ == key {
        0
    } else {
        1 + position(entries.drop_first(), key)
    }
}

proof fn lemma_position<V>(entries: Seq<(String, V)>, key: Seq<char>)
    ensures
        0 <= position(entries, key) <= entries.len(),
        position(entries, key) < entries.len() ==> entries[position(entries, key)].0@ == key,
        forall|i: int| 0 <= i < position(entries, key) ==> (#[trigger] entries[i]).0@ != key,
    decreases entries.len(),
{
    if entries.len() > 0 && entries[0].0@ != key {
        let rest = entries.drop_first();
        lemma_position(rest, key);
        assert forall|i: int| 0 <= i < position(entries, key) implies (#[trigger] entries[i]).0@
            != key by {
            if i > 0 {
                assert(entries[i] == rest[i - 1]);
            }
        }
    }
}

proof fn lemma_position_found<V>(entries: Seq<(String, V)>, key: Seq<char>, k: int)
    requires
        0 <= k <= entries.len(),
        forall|i: int| 0 <= i < k ==> (#[trigger] entries[i]).0@ != key,
        k < entries.len() ==> entries[k].0@ == key,
    ensures
        position(entries, key) == k,
{
    lemma_position(entries, key);
    let p = position(entries, key);
    if p < k {
        assert(entries[p].0@ != key);
    }
}

/// A map from text to `V` in which no key occurs twice.
#[derive(Debug, PartialEq, Eq)]
pub struct TextMap<V> {
    entries: Vec<(String, V)>,
}

impl<V> View for TextMap<V> {
    type V = Seq<(String, V)>;

    closed spec fn view(&self) -> Seq<(String, V)> {
        self.entries@
    }
}

impl<V> TextMap<V> {
    #[verifier::type_invariant]
    spec fn well_formed(self) -> bool {
        distinct_keys(self.entries@)
    }

    /// The map with no entry.
    pub fn new() -> (map: Self)
        ensures
            map@.len() == 0,
    {
        TextMap { entries: Vec::new() }
    }

    /// The number of entries.
    pub fn len(&self) -> (n: usize)
        ensures
            n == self@.len(),
            distinct_keys(self@),
    {
        proof {
            use_type_invariant(self);
        }
        self.entries.len()
    }

    /// The entry at place `i`.
    pub fn entry(&self, i: usize) -> (entry: &(String, V))
        requires
            i < self@.len(),
        ensures
            *entry == self@[i as int],
    {
        &self.entries[i]
    }

    /// The map with `value` at `key`: in place of the value that `key` had,
    /// or as a new last entry.
    pub fn insert(self, key: String, value: V) -> (map: Self)
        ensures
            distinct_keys(map@),
            position(self@, key@) < self@.len() ==> map@ == self@.update(
                position(self@, key@),
                (key, value),
            ),
            position(self@, key@) >= self@.len() ==> map@ == self@.push((key, value)),
    {
        proof {
            use_type_invariant(&self);
        }
        let ghost before = self.entries@;
        let mut entries = self.entries;
        let mut i: usize = 0;
        while i < entries.len() && !(entries[i].0 == key)
            invariant
                i <= entries.len(),
                entries@ == before,
                forall|k: int| 0 <= k < i ==> (#[trigger] before[k]).0@ != key@,
            decreases entries.len() - i,
        {
            i = i + 1;
        }
        proof {
            lemma_position_found(before, key@, i as int);
        }
        if i < entries.len() {
            entries.set(i, (key, value));
            assert(distinct_keys(entries@)) by {
                assert forall|a: int, b: int| 0 <= a < b < entries@.len() implies (
                #[trigger] entries@[a]).0@ != (#[trigger] entries@[b]).0@ by {
                    assert(entries@[a].0@ == before[a].0@);
                    assert(entries@[b].0@ == before[b].0@);
                }
            }
        } else {
            entries.push((key, value));
            assert(distinct_keys(entries@)) by {
                assert forall|a: int, b: int| 0 <= a < b < entries@.len() implies (
                #[trigger] entries@[a]).0@ != (#[trigger] entries@[b]).0@ by {
                    if b < before.len() {
                        assert(entries@[a] == before[a]);
                        assert(entries@[b] == before[b]);
                    } else {
                        assert(entries@[a] == before[a]);
                    }
                }
            }
        }
        TextMap { entries }
    }
}

/// A set of addresses, in the order in which they came.
#[derive(Debug, PartialEq, Eq)]
pub struct AddressSet {
    members: TextMap<()>,
}

impl View for AddressSet {
    type V = Seq<Seq<char>>;

    closed spec fn view(&self) -> Seq<Seq<char>> {
        Seq::new(self.members@.len(), |i: int| self.members@[i].0@)
    }
}

impl AddressSet {
    /// The set with no address.
    pub fn new() -> (set: Self)
        ensures
            set@.len() == 0,
    {
        AddressSet { members: TextMap::new() }
    }

    /// The number of addresses.
    pub fn len(&self) -> (n: usize)
        ensures
            n == self@.len(),
            forall|i: int, j: int| 0 <= i < j < self@.len() ==> self@[i] != self@[j],
    {
        self.members.len()
    }

    /// The text of the address at place `i`.
    pub fn get(&self, i: usize) -> (text: &String)
        requires
            i < self@.len(),
        ensures
            text@ == self@[i as int],
    {
        &self.members.entry(i).0
    }

    /// The set with `address` in it. An address that is in the set already
    /// changes nothing.
    pub fn insert(self, address: Address) -> (set: Self)
        ensures
            self@.contains(address@) ==> set@ == self@,
            !self@.contains(address@) ==> set@ == self@.push(address@),
    {
        let ghost before = self.members@;
        let ghost old_view = self@;
        let members = self.members.insert(address.0, ());
        let set = AddressSet { members };
        proof {
            lemma_position(before, address@);
            let p = position(before, address@);
            if p < before.len() {
                assert(old_view[p] == address@);
                assert(set@ =~= old_view);
            } else {
                assert forall|i: int| 0 <= i < old_view.len() implies old_view[i] != address@ by {
                    assert(before[i].0@ != address@);
                }
                assert(set@ =~= old_view.push(address@));
            }
        }
        set
    }
}

} // verus!
