//! A small verified association table with string keys, standing in for the
//! hash maps the engine's inputs are naturally keyed by: the unique-path
//! repository mappings of a manifest, the remote tables of a manifest tree,
//! and an XML element's attributes. Keys are unique, insertion is last-wins,
//! and iteration order is the insertion order of the keys.

use vstd::prelude::*;

verus! {

/// No two entries share a key.
pub open spec fn unique_keys<V>(entries: Seq<(Seq<char>, V)>) -> bool {
    forall|i: int, j: int| 0 <= i < j < entries.len() ==> entries[i].0 != entries[j].0
}

/// The value at `key`: that of the first entry with this key, if any.
pub open spec fn lookup<V>(entries: Seq<(Seq<char>, V)>, key: Seq<char>) -> Option<V>
    decreases entries.len(),
{
    if entries.len() == 0 {
        None
    } else if entries.first().0 == key {
        Some(entries.first().1)
    } else {
        lookup(entries.drop_first(), key)
    }
}

/// A key that no entry holds looks up to nothing.
pub proof fn lemma_lookup_none<V>(entries: Seq<(Seq<char>, V)>, key: Seq<char>)
    requires
        forall|j: int| 0 <= j < entries.len() ==> entries[j].0 != key,
    ensures
        lookup(entries, key) is None,
    decreases entries.len(),
{
    if entries.len() > 0 {
        assert(entries[0].0 != key);
        assert forall|j: int|
            0 <= j < entries.drop_first().len() implies entries.drop_first()[j].0 != key by {
            assert(entries.drop_first()[j] == entries[j + 1]);
        }
        lemma_lookup_none(entries.drop_first(), key);
    }
}

/// When keys are unique, any entry holding `key` is what `key` looks up to.
pub proof fn lemma_lookup_at<V>(entries: Seq<(Seq<char>, V)>, i: int)
    requires
        unique_keys(entries),
        0 <= i < entries.len(),
    ensures
        lookup(entries, entries[i].0) == Some(entries[i].1),
    decreases entries.len(),
{
    if i == 0 {
    } else {
        assert(entries[0].0 != entries[i].0);
        assert(entries.drop_first()[i - 1] == entries[i]);
        assert forall|a: int, b: int|
            0 <= a < b < entries.drop_first().len() implies entries.drop_first()[a].0
            != entries.drop_first()[b].0 by {
            assert(entries.drop_first()[a] == entries[a + 1]);
            assert(entries.drop_first()[b] == entries[b + 1]);
        }
        lemma_lookup_at(entries.drop_first(), i - 1);
    }
}

/// Unique keys stay unique when the first entry is dropped.
pub proof fn lemma_unique_keys_tail<V>(entries: Seq<(Seq<char>, V)>)
    requires
        unique_keys(entries),
        entries.len() > 0,
    ensures
        unique_keys(entries.drop_first()),
{
    assert forall|a: int, b: int|
        0 <= a < b < entries.drop_first().len() implies entries.drop_first()[a].0
        != entries.drop_first()[b].0 by {
        assert(entries.drop_first()[a] == entries[a + 1]);
        assert(entries.drop_first()[b] == entries[b + 1]);
    }
}

/// Replacing the entry that holds `pair.0` rebinds exactly that key.
proof fn lemma_lookup_update<V>(entries: Seq<(Seq<char>, V)>, i: int, pair: (Seq<char>, V))
    requires
        unique_keys(entries),
        0 <= i < entries.len(),
        entries[i].0 == pair.0,
    ensures
        unique_keys(entries.update(i, pair)),
        forall|k: Seq<char>| #[trigger]
            lookup(entries.update(i, pair), k) == (if k == pair.0 {
                Some(pair.1)
            } else {
                lookup(entries, k)
            }),
    decreases entries.len(),
{
    let updated = entries.update(i, pair);
    assert forall|a: int, b: int|
        0 <= a < b < updated.len() implies updated[a].0 != updated[b].0 by {}
    if i == 0 {
        assert(updated.drop_first() =~= entries.drop_first());
        assert forall|k: Seq<char>| #[trigger]
            lookup(updated, k) == (if k == pair.0 {
                Some(pair.1)
            } else {
                lookup(entries, k)
            }) by {
            if k != pair.0 {
                assert(lookup(updated, k) == lookup(updated.drop_first(), k));
                assert(lookup(entries, k) == lookup(entries.drop_first(), k));
            }
        }
    } else {
        assert(updated.drop_first() =~= entries.drop_first().update(i - 1, pair));
        assert(entries.drop_first()[i - 1] == entries[i]);
        assert forall|a: int, b: int|
            0 <= a < b < entries.drop_first().len() implies entries.drop_first()[a].0
            != entries.drop_first()[b].0 by {
            assert(entries.drop_first()[a] == entries[a + 1]);
            assert(entries.drop_first()[b] == entries[b + 1]);
        }
        lemma_lookup_update(entries.drop_first(), i - 1, pair);
        assert(entries[0].0 != pair.0);
        assert forall|k: Seq<char>| #[trigger]
            lookup(updated, k) == (if k == pair.0 {
                Some(pair.1)
            } else {
                lookup(entries, k)
            }) by {
            assert(updated[0] == entries[0]);
            if k == entries[0].0 {
                assert(lookup(updated, k) == Some(entries[0].1));
                assert(lookup(entries, k) == Some(entries[0].1));
            } else {
                assert(lookup(updated, k) == lookup(updated.drop_first(), k));
                assert(lookup(entries, k) == lookup(entries.drop_first(), k));
            }
        }
    }
}

/// Appending an entry with a fresh key binds exactly that key.
proof fn lemma_lookup_push<V>(entries: Seq<(Seq<char>, V)>, pair: (Seq<char>, V))
    requires
        unique_keys(entries),
        forall|j: int| 0 <= j < entries.len() ==> entries[j].0 != pair.0,
    ensures
        unique_keys(entries.push(pair)),
        forall|k: Seq<char>| #[trigger]
            lookup(entries.push(pair), k) == (if k == pair.0 {
                Some(pair.1)
            } else {
                lookup(entries, k)
            }),
    decreases entries.len(),
{
    let extended = entries.push(pair);
    assert forall|a: int, b: int|
        0 <= a < b < extended.len() implies extended[a].0 != extended[b].0 by {}
    if entries.len() == 0 {
        assert(extended.drop_first() =~= Seq::<(Seq<char>, V)>::empty());
        assert forall|k: Seq<char>| #[trigger]
            lookup(extended, k) == (if k == pair.0 {
                Some(pair.1)
            } else {
                lookup(entries, k)
            }) by {
            assert(extended[0] == pair);
            if k != pair.0 {
                assert(lookup(extended, k) == lookup(extended.drop_first(), k));
            }
        }
    } else {
        assert(extended.drop_first() =~= entries.drop_first().push(pair));
        assert forall|a: int, b: int|
            0 <= a < b < entries.drop_first().len() implies entries.drop_first()[a].0
            != entries.drop_first()[b].0 by {
            assert(entries.drop_first()[a] == entries[a + 1]);
            assert(entries.drop_first()[b] == entries[b + 1]);
        }
        assert forall|j: int|
            0 <= j < entries.drop_first().len() implies entries.drop_first()[j].0 != pair.0 by {
            assert(entries.drop_first()[j] == entries[j + 1]);
        }
        lemma_lookup_push(entries.drop_first(), pair);
        assert forall|k: Seq<char>| #[trigger]
            lookup(extended, k) == (if k == pair.0 {
                Some(pair.1)
            } else {
                lookup(entries, k)
            }) by {
            assert(extended[0] == entries[0]);
            if k != entries[0].0 {
                assert(lookup(extended, k) == lookup(extended.drop_first(), k));
                assert(lookup(entries, k) == lookup(entries.drop_first(), k));
            }
        }
    }
}

/// An association table with string keys and unique-key, last-wins insertion.
pub struct KeyTable<V> {
    entries: Vec<(String, V)>,
}

impl<V> View for KeyTable<V> {
    type V = Seq<(Seq<char>, V)>;

    closed spec fn view(&self) -> Seq<(Seq<char>, V)> {
        self.entries@.map_values(|p: (String, V)| (p.0@, p.1))
    }
}

impl<V> KeyTable<V> {
    /// The table's keys are unique.
    pub open spec fn wf(self) -> bool {
        unique_keys(self@)
    }

    /// An empty table.
    pub fn new() -> (t: KeyTable<V>)
        ensures
            t.wf(),
            t@ =~= Seq::<(Seq<char>, V)>::empty(),
    {
        KeyTable { entries: Vec::new() }
    }

    /// The number of entries.
    pub fn len(&self) -> (n: usize)
        ensures
            n == self@.len(),
    {
        self.entries.len()
    }

    /// The entry at position `i`, in insertion order of the keys.
    pub fn index_at(&self, i: usize) -> (p: &(String, V))
        requires
            i < self@.len(),
        ensures
            p.0@ == self@[i as int].0,
            p.1 == self@[i as int].1,
    {
        &self.entries[i]
    }

    /// The position of the entry holding `key`, if any.
    fn find_index(&self, key: &str) -> (r: Option<usize>)
        ensures
            match r {
                Some(i) => i < self@.len() && self@[i as int].0 == key@,
                None => forall|j: int| 0 <= j < self@.len() ==> self@[j].0 != key@,
            },
    {
        let n = self.entries.len();
        let mut i: usize = 0;
        while i < n
            invariant
                i <= n,
                n == self@.len(),
                forall|j: int| 0 <= j < i ==> self@[j].0 != key@,
            decreases n - i,
        {
            let pair = &self.entries[i];
            if crate::strings::str_eq(pair.0.as_str(), key) {
                return Some(i);
            }
            i = i + 1;
        }
        None
    }

    /// The value bound to `key`, if any.
    pub fn get(&self, key: &str) -> (r: Option<&V>)
        requires
            self.wf(),
        ensures
            match r {
                Some(v) => lookup(self@, key@) == Some(*v),
                None => lookup(self@, key@) is None,
            },
    {
        match self.find_index(key) {
            Some(i) => {
                proof {
                    lemma_lookup_at(self@, i as int);
                }
                Some(&self.entries[i].1)
            },
            None => {
                proof {
                    lemma_lookup_none(self@, key@);
                }
                None
            },
        }
    }

    /// Whether some entry holds `key`.
    pub fn contains_key(&self, key: &str) -> (b: bool)
        requires
            self.wf(),
        ensures
            b == (lookup(self@, key@) is Some),
    {
        match self.get(key) {
            Some(_) => true,
            None => false,
        }
    }

    /// Binds `key` to `value`: a later binding of a key wins over an earlier
    /// one, and every other key keeps its value.
    pub fn insert(&mut self, key: String, value: V)
        requires
            old(self).wf(),
        ensures
            final(self).wf(),
            old(self)@.len() <= final(self)@.len() <= old(self)@.len() + 1,
            forall|k: Seq<char>| #[trigger]
                lookup(final(self)@, k) == (if k == key@ {
                    Some(value)
                } else {
                    lookup(old(self)@, k)
                }),
    {
        match self.find_index(key.as_str()) {
            Some(i) => {
                proof {
                    lemma_lookup_update(self@, i as int, (key@, value));
                }
                self.entries.set(i, (key, value));
                proof {
                    assert(self@ =~= old(self)@.update(i as int, (key@, value)));
                }
            },
            None => {
                proof {
                    lemma_lookup_push(self@, (key@, value));
                }
                self.entries.push((key, value));
                proof {
                    assert(self@ =~= old(self)@.push((key@, value)));
                }
            },
        }
    }
}

impl KeyTable<String> {
    /// An entry-by-entry copy of a table of strings.
    pub fn duplicate(&self) -> (t: KeyTable<String>)
        ensures
            t@ == self@,
    {
        let n = self.entries.len();
        let mut entries: Vec<(String, String)> = Vec::new();
        let mut i: usize = 0;
        while i < n
            invariant
                i <= n,
                n == self.entries@.len(),
                entries@.len() == i,
                forall|j: int| 0 <= j < i ==> entries@[j] == self.entries@[j],
            decreases n - i,
        {
            let pair = &self.entries[i];
            entries.push((pair.0.clone(), pair.1.clone()));
            i = i + 1;
        }
        let t = KeyTable { entries };
        proof {
            assert(t@ =~= self@);
        }
        t
    }
}

} // verus!
