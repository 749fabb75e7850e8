//! The structured value that requests and responses carry: null, an integer,
//! a string, or a mapping from string keys to further values.
//!
//! Contracts speak of a value through its mathematical content, [`Wire`]. A
//! mapping is modelled as the sequence of its entries in insertion order, and
//! an [`RpcMap`] holds no key twice.

use crate::text::same_text;
use vstd::prelude::*;

verus! {

/// The mathematical content of a structured value.
pub enum Wire {
    Null,
    Int(int),
    Text(Seq<char>),
    /// The entries of a mapping, in insertion order.
    Dict(Seq<(Seq<char>, Wire)>),
}

/// The position of the first entry whose key is `key`, or the number of
/// entries if there is none.
pub open spec fn index_of(entries: Seq<(Seq<char>, Wire)>, key: Seq<char>) -> int
    decreases entries.len(),
{
    if entries.len() == 0 {
        0
    } else if entries[0].0 == key {
        0
    } else {
        1 + index_of(entries.drop_first(), key)
    }
}

/// The value stored under `key`, if any.
pub open spec fn lookup(entries: Seq<(Seq<char>, Wire)>, key: Seq<char>) -> Option<Wire> {
    let i = index_of(entries, key);
    if i < entries.len() {
        Some(entries[i].1)
    } else {
        None
    }
}

/// The entries after `value` has been stored under `key`: an entry that
/// already has the key keeps its place and takes the new value, otherwise a
/// new entry is added at the end.
pub open spec fn put(entries: Seq<(Seq<char>, Wire)>, key: Seq<char>, value: Wire) -> Seq<
    (Seq<char>, Wire),
> {
    let i = index_of(entries, key);
    if i < entries.len() {
        entries.update(i, (key, value))
    } else {
        entries.push((key, value))
    }
}

/// No key occurs twice among the entries.
pub open spec fn distinct_keys(entries: Seq<(Seq<char>, Wire)>) -> bool {
    forall|i: int, j: int| 0 <= i < j < entries.len() ==> entries[i].0 != entries[j].0
}

impl Wire {
    /// The member stored under `key` when this is a mapping that has one.
    pub open spec fn get(self, key: Seq<char>) -> Option<Wire> {
        match self {
            Wire::Dict(entries) => lookup(entries, key),
            _ => None,
        }
    }

    /// The keys of a mapping, in order; empty for any other value.
    pub open spec fn keys(self) -> Seq<Seq<char>> {
        match self {
            Wire::Dict(entries) => Seq::new(entries.len(), |i: int| entries[i].0),
            _ => Seq::empty(),
        }
    }

    /// The 32-bit reading of a value: an integer cut to its low 32 bits, and
    /// zero for anything that is not an integer.
    pub open spec fn to_i32(self) -> i32 {
        match self {
            Wire::Int(n) => n as i32,
            _ => 0i32,
        }
    }
}

/// `index_of` is the one position `i` at which the key stands with no earlier
/// occurrence, or the length when the key does not occur.
pub proof fn lemma_index_of(entries: Seq<(Seq<char>, Wire)>, key: Seq<char>)
    ensures
        0 <= index_of(entries, key) <= entries.len(),
        index_of(entries, key) < entries.len() ==> entries[index_of(entries, key)].0 == key,
        forall|j: int| 0 <= j < index_of(entries, key) ==> entries[j].0 != key,
    decreases entries.len(),
{
    if entries.len() > 0 && entries[0].0 != key {
        let rest = entries.drop_first();
        lemma_index_of(rest, key);
        assert forall|j: int| 0 <= j < index_of(entries, key) implies entries[j].0 != key by {
            if j > 0 {
                assert(entries[j] == rest[j - 1]);
            }
        }
    }
}

/// A position with the key and none before it is the one `index_of` gives.
pub proof fn lemma_index_of_is(entries: Seq<(Seq<char>, Wire)>, key: Seq<char>, i: int)
    requires
        0 <= i <= entries.len(),
        i < entries.len() ==> entries[i].0 == key,
        forall|j: int| 0 <= j < i ==> entries[j].0 != key,
    ensures
        index_of(entries, key) == i,
{
    lemma_index_of(entries, key);
}

/// A key that stands at position `i` and nowhere before it is found there.
pub proof fn lemma_lookup_at(entries: Seq<(Seq<char>, Wire)>, key: Seq<char>, i: int)
    requires
        0 <= i < entries.len(),
        entries[i].0 == key,
        forall|j: int| 0 <= j < i ==> entries[j].0 != key,
    ensures
        lookup(entries, key) == Some(entries[i].1),
        put(entries, key, entries[i].1) == entries,
{
    lemma_index_of_is(entries, key, i);
    assert(entries.update(i, (key, entries[i].1)) =~= entries);
}

/// A key that no entry has is not found, and storing under it adds an entry
/// at the end.
pub proof fn lemma_lookup_absent(entries: Seq<(Seq<char>, Wire)>, key: Seq<char>, value: Wire)
    requires
        forall|j: int| 0 <= j < entries.len() ==> entries[j].0 != key,
    ensures
        lookup(entries, key) is None,
        put(entries, key, value) == entries.push((key, value)),
{
    lemma_index_of_is(entries, key, entries.len() as int);
}

/// Storing under a key keeps the keys distinct, and a lookup of that key then
/// finds the stored value while every other key reads as before.
pub proof fn lemma_put(entries: Seq<(Seq<char>, Wire)>, key: Seq<char>, value: Wire)
    requires
        distinct_keys(entries),
    ensures
        distinct_keys(put(entries, key, value)),
        lookup(put(entries, key, value), key) == Some(value),
        forall|other: Seq<char>|
            other != key ==> lookup(put(entries, key, value), other) == lookup(entries, other),
{
    let after = put(entries, key, value);
    let i = index_of(entries, key);
    lemma_index_of(entries, key);
    lemma_index_of_is(after, key, i);
    assert forall|a: int, b: int| 0 <= a < b < after.len() implies after[a].0 != after[b].0 by {
        if i < entries.len() {
            assert(entries[a].0 != entries[b].0);
        } else if b < entries.len() {
            assert(entries[a].0 != entries[b].0);
        }
    }
    assert forall|other: Seq<char>| other != key implies lookup(after, other) == lookup(
        entries,
        other,
    ) by {
        let k = index_of(entries, other);
        lemma_index_of(entries, other);
        lemma_index_of(after, other);
        if k < entries.len() {
            lemma_index_of_is(after, other, k);
        } else {
            lemma_index_of_is(after, other, after.len() as int);
        }
    }
}

/// One key of a mapping with the value stored under it.
#[derive(Debug, PartialEq, Eq)]
struct Entry {
    key: String,
    value: RpcValue,
}

/// A mapping from string keys to values that keeps its entries in insertion
/// order and holds each key once.
#[derive(Debug, PartialEq, Eq)]
pub struct RpcMap {
    entries: Vec<Entry>,
}

/// A structured value.
#[derive(Debug, PartialEq, Eq)]
pub enum RpcValue {
    Null,
    Int(i128),
    String(String),
    Mapping(RpcMap),
}

impl View for RpcMap {
    type V = Seq<(Seq<char>, Wire)>;

    /// The entries in insertion order, each as its key and the content of its
    /// value.
    closed spec fn view(&self) -> Seq<(Seq<char>, Wire)>
        decreases self,
    {
        Seq::new(
            self.entries.len() as nat,
            |i: int|
                if 0 <= i < self.entries.len() {
                    (self.entries[i].key@, self.entries[i].value@)
                } else {
                    arbitrary()
                },
        )
    }
}

impl View for RpcValue {
    type V = Wire;

    open spec fn view(&self) -> Wire
        decreases self,
    {
        match self {
            RpcValue::Null => Wire::Null,
            RpcValue::Int(n) => Wire::Int(*n as int),
            RpcValue::String(s) => Wire::Text(s@),
            RpcValue::Mapping(m) => Wire::Dict(m@),
        }
    }
}

impl RpcMap {
    /// No two entries have the same key.
    #[verifier::type_invariant]
    spec fn holds_each_key_once(self) -> bool {
        forall|i: int, j: int|
            0 <= i < j < self.entries.len() ==> self.entries[i].key@ != self.entries[j].key@
    }

    /// A mapping without entries.
    pub fn new() -> (map: RpcMap)
        ensures
            map@ == Seq::<(Seq<char>, Wire)>::empty(),
            distinct_keys(map@),
    {
        let map = RpcMap { entries: Vec::new() };
        assert(map@ =~= Seq::empty());
        map
    }

    /// The number of entries. No two of them have the same key.
    pub fn len(&self) -> (n: usize)
        ensures
            n == self@.len(),
            distinct_keys(self@),
    {
        proof {
            use_type_invariant(self);
        }
        self.entries.len()
    }

    /// Whether the mapping has no entries.
    pub fn is_empty(&self) -> (empty: bool)
        ensures
            empty == (self@.len() == 0),
    {
        self.entries.len() == 0
    }

    /// The position of the entry with the given key, or the number of entries.
    fn position(&self, key: &str) -> (i: usize)
        ensures
            i == index_of(self@, key@),
            i <= self.entries.len(),
    {
        let mut i: usize = 0;
        while i < self.entries.len()
            invariant
                i <= self.entries.len(),
                forall|j: int| 0 <= j < i ==> self@[j].0 != key@,
            decreases self.entries.len() - i,
        {
            if same_text(self.entries[i].key.as_str(), key) {
                proof {
                    lemma_index_of_is(self@, key@, i as int);
                }
                return i;
            }
            i += 1;
        }
        proof {
            lemma_index_of_is(self@, key@, i as int);
        }
        i
    }

    /// The value stored under `key`, if the mapping has that key.
    pub fn get(&self, key: &str) -> (found: Option<&RpcValue>)
        ensures
            match found {
                Some(value) => lookup(self@, key@) == Some(value@),
                None => lookup(self@, key@) is None,
            },
            distinct_keys(self@),
    {
        proof {
            use_type_invariant(self);
        }
        let i = self.position(key);
        if i < self.entries.len() {
            Some(&self.entries[i].value)
        } else {
            None
        }
    }

    /// Stores `value` under `key`. A key that is already present keeps its
    /// place and takes the new value; a new key goes to the end.
    pub fn insert(&mut self, key: String, value: RpcValue)
        ensures
            final(self)@ == put(old(self)@, key@, value@),
            distinct_keys(final(self)@),
    {
        proof {
            use_type_invariant(&*self);
        }
        let i = self.position(key.as_str());
        let ghost before = self@;
        proof {
            lemma_index_of(before, key@);
            lemma_put(before, key@, value@);
        }
        let mut taken = RpcMap::new();
        core::mem::swap(self, &mut taken);
        let mut entries = taken.entries;
        if i < entries.len() {
            entries.set(i, Entry { key, value });
        } else {
            entries.push(Entry { key, value });
        }
        let ghost after = put(before, key@, value@);
        assert forall|a: int, b: int| 0 <= a < b < entries.len() implies entries[a].key@
            != entries[b].key@ by {
            assert(after[a].0 != after[b].0);
        }
        *self = RpcMap { entries };
        assert(self@ =~= after);
    }
}

impl RpcValue {
    /// The member stored under `key` when this value is a mapping that has
    /// the key; nothing for any other value.
    pub fn get(&self, key: &str) -> (found: Option<&RpcValue>)
        ensures
            match found {
                Some(value) => self@.get(key@) == Some(value@),
                None => self@.get(key@) is None,
            },
    {
        match self {
            RpcValue::Mapping(map) => map.get(key),
            _ => None,
        }
    }

    /// The text of a string value; nothing for any other value.
    pub fn as_str(&self) -> (text: Option<&str>)
        ensures
            match text {
                Some(s) => self@ == Wire::Text(s@),
                None => !(self@ is Text),
            },
    {
        match self {
            RpcValue::String(s) => Some(s.as_str()),
            _ => None,
        }
    }

    /// The 32-bit reading of the value: an integer is cut to its low 32 bits,
    /// anything else reads as zero.
    pub fn as_i32(&self) -> (n: i32)
        ensures
            n == self@.to_i32(),
    {
        match self {
            RpcValue::Int(n) => #[verifier::truncate]
            (*n as i32),
            _ => 0,
        }
    }
}

} // verus!
