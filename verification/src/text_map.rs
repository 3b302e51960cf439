//! A small map keyed by text, kept as a list in which no key occurs twice.

use vstd::prelude::*;
use vstd::string::*;

verus! {

/// Values of which an equal copy can be made.
pub trait Duplicate: Sized {
    fn duplicate(&self) -> (copy: Self)
        ensures
            copy == *self,
    ;
}

impl Duplicate for u64 {
    fn duplicate(&self) -> (copy: u64) {
        *self
    }
}

/// One key with its value.
pub struct Entry<V> {
    pub key: String,
    pub value: V,
}

/// A position at which `entries` holds `key`.
pub open spec fn position_of<V>(entries: Seq<Entry<V>>, key: Seq<char>) -> int {
    choose|i: int| 0 <= i < entries.len() && (#[trigger] entries[i]).key@ == key
}

/// Some entry has the key.
pub open spec fn has_key<V>(entries: Seq<Entry<V>>, key: Seq<char>) -> bool {
    exists|i: int| 0 <= i < entries.len() && (#[trigger] entries[i]).key@ == key
}

/// No key occurs twice.
pub open spec fn distinct_keys<V>(entries: Seq<Entry<V>>) -> bool {
    forall|i: int, j: int|
        #![trigger entries[i], entries[j]]
        0 <= i < entries.len() && 0 <= j < entries.len() && entries[i].key@ == entries[j].key@
            ==> i == j
}

/// The map that a list of entries stands for.
pub open spec fn as_map<V>(entries: Seq<Entry<V>>) -> Map<Seq<char>, V> {
    Map::new(
        |key: Seq<char>| has_key(entries, key),
        |key: Seq<char>| entries[position_of(entries, key)].value,
    )
}

/// In a list without repeated keys, an entry is the one that the map has
/// for its key.
pub proof fn lemma_entry_in_map<V>(entries: Seq<Entry<V>>, i: int)
    requires
        distinct_keys(entries),
        0 <= i < entries.len(),
    ensures
        as_map(entries).contains_key(entries[i].key@),
        as_map(entries)[entries[i].key@] == entries[i].value,
        position_of(entries, entries[i].key@) == i,
{
    let key = entries[i].key@;
    let p = position_of(entries, key);
    assert(0 <= p < entries.len() && entries[p].key@ == key);
}

/// Adding an entry under a key that is not yet there adds it to the map.
pub proof fn lemma_push_entry<V>(entries: Seq<Entry<V>>, entry: Entry<V>)
    requires
        distinct_keys(entries),
        !has_key(entries, entry.key@),
    ensures
        distinct_keys(entries.push(entry)),
        as_map(entries.push(entry)) == as_map(entries).insert(entry.key@, entry.value),
{
    let after = entries.push(entry);
    let n = entries.len() as int;
    assert forall|i: int, j: int|
        #![trigger after[i], after[j]]
        0 <= i < after.len() && 0 <= j < after.len() && after[i].key@ == after[j].key@ implies i
        == j by {
        if i < n && j < n {
            assert(after[i] == entries[i] && after[j] == entries[j]);
        } else if i < n {
            assert(entries[i].key@ == entry.key@);
        } else if j < n {
            assert(entries[j].key@ == entry.key@);
        }
    }
    assert forall|key: Seq<char>| has_key(after, key) <==> (key == entry.key@ || has_key(
        entries,
        key,
    )) by {
        if has_key(after, key) {
            let i = position_of(after, key);
            if i < n {
                assert(entries[i].key@ == key);
            }
        }
        if has_key(entries, key) {
            let i = position_of(entries, key);
            assert(after[i].key@ == key);
        }
        if key == entry.key@ {
            assert(after[n].key@ == key);
        }
    }
    assert forall|key: Seq<char>| has_key(after, key) implies #[trigger] as_map(after)[key]
        == as_map(entries).insert(entry.key@, entry.value)[key] by {
        let i = position_of(after, key);
        lemma_entry_in_map(after, i);
        if i < n {
            assert(after[i] == entries[i]);
            lemma_entry_in_map(entries, i);
        }
    }
    assert(as_map(after) =~= as_map(entries).insert(entry.key@, entry.value));
}

/// Taking an entry out takes its key out of the map.
pub proof fn lemma_remove_entry<V>(entries: Seq<Entry<V>>, at: int)
    requires
        distinct_keys(entries),
        0 <= at < entries.len(),
    ensures
        distinct_keys(entries.remove(at)),
        !has_key(entries.remove(at), entries[at].key@),
        as_map(entries.remove(at)) == as_map(entries).remove(entries[at].key@),
{
    let after = entries.remove(at);
    let gone = entries[at].key@;
    assert forall|i: int| 0 <= i < after.len() implies #[trigger] after[i] == entries[if i < at {
        i
    } else {
        i + 1
    }] by {}
    assert forall|i: int, j: int|
        #![trigger after[i], after[j]]
        0 <= i < after.len() && 0 <= j < after.len() && after[i].key@ == after[j].key@ implies i
        == j by {
        let a = if i < at { i } else { i + 1 };
        let b = if j < at { j } else { j + 1 };
        assert(entries[a].key@ == entries[b].key@);
    }
    assert forall|key: Seq<char>| has_key(after, key) <==> (key != gone && has_key(
        entries,
        key,
    )) by {
        if has_key(after, key) {
            let i = position_of(after, key);
            let a = if i < at { i } else { i + 1 };
            assert(entries[a].key@ == key);
            if key == gone {
                assert(entries[a].key@ == entries[at].key@);
            }
        }
        if has_key(entries, key) && key != gone {
            let a = position_of(entries, key);
            let i = if a < at { a } else { a - 1 };
            assert(after[i] == entries[a]);
        }
    }
    assert forall|key: Seq<char>| has_key(after, key) implies #[trigger] as_map(after)[key]
        == as_map(entries)[key] by {
        let i = position_of(after, key);
        let a = if i < at { i } else { i + 1 };
        lemma_entry_in_map(after, i);
        lemma_entry_in_map(entries, a);
    }
    assert(as_map(after) =~= as_map(entries).remove(gone));
}

/// A map from text to values of type `V`.
pub struct TextMap<V> {
    entries: Vec<Entry<V>>,
}

impl<V> View for TextMap<V> {
    type V = Map<Seq<char>, V>;

    closed spec fn view(&self) -> Map<Seq<char>, V> {
        as_map(self.entries@)
    }
}

impl<V> TextMap<V> {
    #[verifier::type_invariant]
    spec fn inv(self) -> bool {
        distinct_keys(self.entries@)
    }

    /// The empty map.
    pub fn new() -> (map: TextMap<V>)
        ensures
            map@ == Map::<Seq<char>, V>::empty(),
    {
        let map = TextMap { entries: Vec::new() };
        assert(map@ =~= Map::<Seq<char>, V>::empty());
        map
    }

    fn find(&self, key: &String) -> (at: Option<usize>)
        ensures
            match at {
                Some(i) => i < self.entries@.len() && self.entries@[i as int].key@ == key@,
                None => !has_key(self.entries@, key@),
            },
    {
        let mut i: usize = 0;
        while i < self.entries.len()
            invariant
                i <= self.entries.len(),
                forall|k: int| 0 <= k < i ==> (#[trigger] self.entries@[k]).key@ != key@,
            decreases self.entries.len() - i,
        {
            if self.entries[i].key == *key {
                return Some(i);
            }
            i += 1;
        }
        None
    }

    /// The value under `key`, if there is one.
    pub fn get(&self, key: &str) -> (value: Option<&V>)
        ensures
            match value {
                Some(v) => self@.contains_key(key@) && self@[key@] == *v,
                None => !self@.contains_key(key@),
            },
    {
        proof {
            use_type_invariant(self);
        }
        let key = key.to_owned();
        match self.find(&key) {
            Some(i) => {
                proof {
                    lemma_entry_in_map(self.entries@, i as int);
                }
                Some(&self.entries[i].value)
            },
            None => None,
        }
    }

    /// Puts `value` under `key`, in place of what was there.
    pub fn insert(&mut self, key: String, value: V)
        ensures
            final(self)@ == old(self)@.insert(key@, value),
    {
        proof {
            use_type_invariant(&*self);
        }
        let at = self.find(&key);
        let mut entries: Vec<Entry<V>> = Vec::new();
        core::mem::swap(&mut self.entries, &mut entries);
        let ghost before = entries@;
        if let Some(i) = at {
            entries.remove(i);
            proof {
                lemma_remove_entry(before, i as int);
            }
        }
        let ghost between = entries@;
        entries.push(Entry { key, value });
        proof {
            lemma_push_entry(between, Entry { key, value });
            assert(as_map(entries@) =~= as_map(before).insert(key@, value));
        }
        core::mem::swap(&mut self.entries, &mut entries);
    }

    /// Takes `key` out. Tells whether it was there.
    pub fn remove(&mut self, key: &str) -> (was_there: bool)
        ensures
            was_there == old(self)@.contains_key(key@),
            final(self)@ == old(self)@.remove(key@),
    {
        proof {
            use_type_invariant(&*self);
        }
        let key = key.to_owned();
        match self.find(&key) {
            Some(i) => {
                let mut entries: Vec<Entry<V>> = Vec::new();
                core::mem::swap(&mut self.entries, &mut entries);
                let ghost before = entries@;
                entries.remove(i);
                proof {
                    lemma_remove_entry(before, i as int);
                }
                core::mem::swap(&mut self.entries, &mut entries);
                true
            },
            None => {
                assert(self@ =~= self@.remove(key@));
                false
            },
        }
    }
}

impl<V: Duplicate> TextMap<V> {
    /// A map with the same keys and equal values.
    pub fn duplicate(&self) -> (copy: TextMap<V>)
        ensures
            copy@ == self@,
    {
        proof {
            use_type_invariant(self);
        }
        let mut entries: Vec<Entry<V>> = Vec::new();
        let mut i: usize = 0;
        while i < self.entries.len()
            invariant
                i <= self.entries.len(),
                entries@ == self.entries@.take(i as int),
            decreases self.entries.len() - i,
        {
            let entry = &self.entries[i];
            entries.push(Entry { key: entry.key.clone(), value: entry.value.duplicate() });
            i += 1;
            assert(entries@ =~= self.entries@.take(i as int));
        }
        assert(entries@ =~= self.entries@);
        TextMap { entries }
    }
}

} // verus!
