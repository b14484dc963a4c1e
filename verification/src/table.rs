//! A small table keyed by text, viewed as a `Map`.
//!
//! The server's two mappings, from names to counts and from paths to handlers,
//! are short and keyed by strings. Both are kept as a list of entries in which
//! no key occurs twice.

use vstd::prelude::*;

verus! {

/// One entry of a table.
pub struct Entry<V> {
    pub key: String,
    pub value: V,
}

/// The map that a sequence of entries stands for: each key mapped to the value
/// of its entry, a later entry overriding an earlier one with the same key.
pub open spec fn contents<V>(entries: Seq<Entry<V>>) -> Map<Seq<char>, V>
    decreases entries.len(),
{
    if entries.len() == 0 {
        Map::empty()
    } else {
        contents(entries.drop_last()).insert(entries.last().key@, entries.last().value)
    }
}

/// No key occurs in two entries.
pub open spec fn distinct_keys<V>(entries: Seq<Entry<V>>) -> bool {
    forall|i: int, j: int| 0 <= i < j < entries.len() ==> entries[i].key@ != entries[j].key@
}

/// A key without an entry is not in the map.
pub proof fn lemma_contents_absent<V>(entries: Seq<Entry<V>>, key: Seq<char>)
    requires
        forall|i: int| 0 <= i < entries.len() ==> entries[i].key@ != key,
    ensures
        !contents(entries).dom().contains(key),
    decreases entries.len(),
{
    if entries.len() > 0 {
        lemma_contents_absent(entries.drop_last(), key);
    }
}

/// Where keys are distinct, the map takes each entry's key to its value.
pub proof fn lemma_contents_lookup<V>(entries: Seq<Entry<V>>, i: int)
    requires
        distinct_keys(entries),
        0 <= i < entries.len(),
    ensures
        contents(entries).dom().contains(entries[i].key@),
        contents(entries)[entries[i].key@] == entries[i].value,
    decreases entries.len(),
{
    if i < entries.len() - 1 {
        lemma_contents_lookup(entries.drop_last(), i);
    }
}

/// Appending an entry inserts it into the map.
pub proof fn lemma_contents_push<V>(entries: Seq<Entry<V>>, entry: Entry<V>)
    ensures
        contents(entries.push(entry)) == contents(entries).insert(entry.key@, entry.value),
{
    assert(entries.push(entry).drop_last() =~= entries);
}

/// Where keys are distinct, a new value in one entry changes the map at that
/// entry's key and nowhere else.
pub proof fn lemma_contents_replace<V>(before: Seq<Entry<V>>, after: Seq<Entry<V>>, i: int)
    requires
        distinct_keys(before),
        0 <= i < before.len(),
        after.len() == before.len(),
        after[i].key@ == before[i].key@,
        forall|j: int| 0 <= j < before.len() && j != i ==> after[j] == before[j],
    ensures
        distinct_keys(after),
        contents(after) == contents(before).insert(before[i].key@, after[i].value),
    decreases before.len(),
{
    let last = before.len() - 1;
    if i == last {
        assert(after.drop_last() =~= before.drop_last());
        assert(contents(after) =~= contents(before).insert(before[i].key@, after[i].value));
    } else {
        lemma_contents_replace(before.drop_last(), after.drop_last(), i);
        assert(after.last() == before.last());
        assert(contents(after) =~= contents(before).insert(before[i].key@, after[i].value));
    }
}

/// The index of the entry for `key`, if there is one.
fn position<V>(entries: &Vec<Entry<V>>, key: &String) -> (r: Option<usize>)
    ensures
        match r {
            Some(i) => i < entries.len() && entries[i as int].key@ == key@,
            None => forall|j: int| 0 <= j < entries.len() ==> entries[j].key@ != key@,
        },
{
    let mut i: usize = 0;
    while i < entries.len()
        invariant
            i <= entries.len(),
            forall|j: int| 0 <= j < i ==> entries[j].key@ != key@,
        decreases entries.len() - i,
    {
        if entries[i].key == *key {
            return Some(i);
        }
        i = i + 1;
    }
    None
}

/// A table from text to `V`.
pub struct Table<V> {
    entries: Vec<Entry<V>>,
}

impl<V> View for Table<V> {
    type V = Map<Seq<char>, V>;

    closed spec fn view(&self) -> Map<Seq<char>, V> {
        contents(self.entries@)
    }
}

impl<V> Table<V> {
    #[verifier::type_invariant]
    spec fn well_formed(&self) -> bool {
        distinct_keys(self.entries@)
    }

    /// The empty table.
    pub fn new() -> (table: Table<V>)
        ensures
            table@ == Map::<Seq<char>, V>::empty(),
    {
        Table { entries: Vec::new() }
    }

    /// Whether the table has no entry.
    pub fn is_empty(&self) -> (r: bool)
        ensures
            r == (self@ == Map::<Seq<char>, V>::empty()),
    {
        let r = self.entries.len() == 0;
        proof {
            if !r {
                use_type_invariant(self);
                lemma_contents_lookup(self.entries@, 0);
            }
        }
        r
    }

    /// The value under `key`, if the table has one.
    pub fn get(&self, key: &String) -> (r: Option<&V>)
        ensures
            match r {
                Some(value) => self@.dom().contains(key@) && self@[key@] == *value,
                None => !self@.dom().contains(key@),
            },
    {
        proof {
            use_type_invariant(self);
        }
        match position(&self.entries, key) {
            Some(i) => {
                proof {
                    lemma_contents_lookup(self.entries@, i as int);
                }
                Some(&self.entries[i].value)
            },
            None => {
                proof {
                    lemma_contents_absent(self.entries@, key@);
                }
                None
            },
        }
    }

    /// Puts `value` under `key`. A value that was there before is replaced.
    pub fn insert(&mut self, key: String, value: V)
        ensures
            final(self)@ == old(self)@.insert(key@, value),
    {
        proof {
            use_type_invariant(&*self);
        }
        let mut taken = Table { entries: Vec::new() };
        core::mem::swap(self, &mut taken);
        let Table { entries } = taken;
        let mut entries = entries;
        match position(&entries, &key) {
            Some(i) => {
                entries[i].value = value;
                proof {
                    lemma_contents_replace(old(self).entries@, entries@, i as int);
                }
            },
            None => {
                proof {
                    lemma_contents_push(entries@, Entry { key: key, value: value });
                }
                entries.push(Entry { key, value });
            },
        }
        *self = Table { entries };
    }

    /// The entries of the table as a sequence, in the order in which their
    /// keys were first inserted.
    pub closed spec fn entries_view(&self) -> Seq<Entry<V>> {
        self.entries@
    }

    /// The entries of the table, one per key.
    pub fn entries(&self) -> (r: &Vec<Entry<V>>)
        ensures
            r@ == self.entries_view(),
            distinct_keys(r@),
            contents(r@) == self@,
    {
        proof {
            use_type_invariant(self);
        }
        &self.entries
    }
}

} // verus!
