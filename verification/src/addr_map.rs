//! An association table from address strings to values.
//!
//! The host ledger gives each component a private key-value namespace; this
//! table is the library's own stand-in for one namespace. Entries are kept in
//! a vector with pairwise-distinct keys, and the table is specified through
//! its view as a `Map<Seq<char>, V>`.

use vstd::prelude::*;

verus! {

/// A lookup table keyed by address strings, with each key present at most
/// once.
pub struct AddrMap<V> {
    entries: Vec<(String, V)>,
}

/// The map described by a sequence of key-value entries, later entries
/// winning over earlier ones.
pub closed spec fn entries_to_map<V>(s: Seq<(String, V)>) -> Map<Seq<char>, V>
    decreases s.len(),
{
    if s.len() == 0 {
        Map::empty()
    } else {
        entries_to_map(s.drop_last()).insert(s.last().0@, s.last().1)
    }
}

/// No two entries of `s` share a key.
pub open spec fn entry_keys_unique<V>(s: Seq<(String, V)>) -> bool {
    forall|i: int, j: int| 0 <= i < j < s.len() ==> s[i].0@ != s[j].0@
}

/// An empty entry sequence describes the empty map.
pub proof fn lemma_entries_to_map_empty<V>(s: Seq<(String, V)>)
    requires
        s.len() == 0,
    ensures
        entries_to_map(s) == Map::<Seq<char>, V>::empty(),
{
}

/// Appending an entry describes the same map as inserting its binding.
pub proof fn lemma_entries_to_map_push<V>(s: Seq<(String, V)>, e: (String, V))
    ensures
        entries_to_map(s.push(e)) == entries_to_map(s).insert(e.0@, e.1),
{
    assert(s.push(e).drop_last() =~= s);
    assert(s.push(e).last() == e);
}

/// A key occurs among the entries exactly when the described map contains it.
pub proof fn lemma_entries_to_map_contains<V>(s: Seq<(String, V)>, k: Seq<char>)
    ensures
        entries_to_map(s).contains_key(k) <==> exists|i: int| 0 <= i < s.len() && s[i].0@ == k,
    decreases s.len(),
{
    if s.len() > 0 {
        lemma_entries_to_map_contains(s.drop_last(), k);
        if entries_to_map(s).contains_key(k) && s.last().0@ != k {
            let i = choose|i: int| 0 <= i < s.drop_last().len() && s.drop_last()[i].0@ == k;
            assert(s[i].0@ == k);
        }
        if exists|i: int| 0 <= i < s.len() && s[i].0@ == k {
            let i = choose|i: int| 0 <= i < s.len() && s[i].0@ == k;
            if i < s.len() - 1 {
                assert(s.drop_last()[i].0@ == k);
            }
        }
    }
}

/// With unique keys, the entry at any index is the one the described map
/// associates with its key.
pub proof fn lemma_entries_to_map_index<V>(s: Seq<(String, V)>, i: int)
    requires
        entry_keys_unique(s),
        0 <= i < s.len(),
    ensures
        entries_to_map(s).contains_key(s[i].0@),
        entries_to_map(s)[s[i].0@] == s[i].1,
    decreases s.len(),
{
    if i == s.len() - 1 {
    } else {
        assert(entry_keys_unique(s.drop_last())) by {
            assert(forall|x: int, y: int|
                0 <= x < y < s.drop_last().len() ==> s.drop_last()[x].0@ != s.drop_last()[y].0@);
        }
        lemma_entries_to_map_index(s.drop_last(), i);
        assert(s.drop_last()[i] == s[i]);
        assert(s[i].0@ != s.last().0@);
    }
}

/// Updating the entry that holds a key describes the same map as inserting
/// over that key.
pub proof fn lemma_entries_to_map_update<V>(s: Seq<(String, V)>, i: int, k: String, v: V)
    requires
        entry_keys_unique(s),
        0 <= i < s.len(),
        s[i].0@ == k@,
    ensures
        entries_to_map(s.update(i, (k, v))) =~= entries_to_map(s).insert(k@, v),
    decreases s.len(),
{
    let t = s.update(i, (k, v));
    if i == s.len() - 1 {
        assert(t.drop_last() =~= s.drop_last());
        assert(t.last() == (k, v));
    } else {
        assert(entry_keys_unique(s.drop_last())) by {
            assert(forall|x: int, y: int|
                0 <= x < y < s.drop_last().len() ==> s.drop_last()[x].0@ != s.drop_last()[y].0@);
        }
        assert(s.drop_last()[i] == s[i]);
        lemma_entries_to_map_update(s.drop_last(), i, k, v);
        assert(t.drop_last() =~= s.drop_last().update(i, (k, v)));
        assert(t.last() == s.last());
        assert(s[i].0@ != s.last().0@);
    }
}

impl<V> View for AddrMap<V> {
    type V = Map<Seq<char>, V>;

    closed spec fn view(&self) -> Map<Seq<char>, V> {
        entries_to_map(self.entries@)
    }
}

impl<V> AddrMap<V> {
    /// The table keeps each key at most once.
    pub closed spec fn wf(&self) -> bool {
        entry_keys_unique(self.entries@)
    }

    /// An empty table.
    pub fn new() -> (r: AddrMap<V>)
        ensures
            r.wf(),
            r@ == Map::<Seq<char>, V>::empty(),
    {
        AddrMap { entries: Vec::new() }
    }

    /// Looks a key up, handing back a reference to its value if present.
    pub fn get(&self, key: &String) -> (r: Option<&V>)
        requires
            self.wf(),
        ensures
            match r {
                Some(v) => self@.contains_key(key@) && *v == self@[key@],
                None => !self@.contains_key(key@),
            },
    {
        let n = self.entries.len();
        let mut i: usize = 0;
        while i < n
            invariant
                n == self.entries.len(),
                i <= n,
                self.wf(),
                forall|j: int| 0 <= j < i ==> self.entries@[j].0@ != key@,
            decreases n - i,
        {
            let entry = &self.entries[i];
            if entry.0 == *key {
                proof {
                    lemma_entries_to_map_index(self.entries@, i as int);
                }
                return Some(&entry.1);
            }
            i = i + 1;
        }
        proof {
            lemma_entries_to_map_contains(self.entries@, key@);
        }
        None
    }

    /// A table holding the given entries, a later binding of a key winning
    /// over an earlier one.
    pub fn from_entries(entries: Vec<(String, V)>) -> (r: AddrMap<V>)
        ensures
            r.wf(),
            r@ == entries_to_map(entries@),
    {
        let ghost orig = entries@;
        let mut remaining = entries;
        let mut table = AddrMap::new();
        proof {
            assert(orig.subrange(0, 0) =~= Seq::<(String, V)>::empty());
        }
        while remaining.len() > 0
            invariant
                table.wf(),
                remaining@.len() <= orig.len(),
                remaining@ == orig.subrange(orig.len() - remaining@.len(), orig.len() as int),
                table@ == entries_to_map(orig.subrange(0, orig.len() - remaining@.len())),
            decreases remaining.len(),
        {
            let ghost k = orig.len() - remaining@.len();
            let (key, value) = remaining.remove(0);
            proof {
                assert(orig.subrange(k as int, orig.len() as int).remove(0) =~= orig.subrange(
                    k as int + 1,
                    orig.len() as int,
                ));
                assert(orig.subrange(0, k as int + 1) =~= orig.subrange(0, k as int).push(
                    orig[k as int],
                ));
                lemma_entries_to_map_push(orig.subrange(0, k as int), orig[k as int]);
            }
            table.insert(key, value);
        }
        proof {
            assert(orig.subrange(0, orig.len() as int) =~= orig);
        }
        table
    }

    /// The table's backing entries, for callers that must persist it:
    /// pairwise-distinct keys describing exactly the table's map.
    pub fn entries(&self) -> (r: &Vec<(String, V)>)
        requires
            self.wf(),
        ensures
            entry_keys_unique(r@),
            entries_to_map(r@) == self@,
    {
        &self.entries
    }

    /// Binds a key to a value, replacing any earlier binding.
    pub fn insert(&mut self, key: String, value: V)
        requires
            old(self).wf(),
        ensures
            final(self).wf(),
            final(self)@ == old(self)@.insert(key@, value),
    {
        let n = self.entries.len();
        let mut i: usize = 0;
        while i < n
            invariant
                n == self.entries.len(),
                i <= n,
                self.wf(),
                self == old(self),
                forall|j: int| 0 <= j < i ==> self.entries@[j].0@ != key@,
            decreases n - i,
        {
            if self.entries[i].0 == key {
                proof {
                    lemma_entries_to_map_update(self.entries@, i as int, key, value);
                }
                self.entries[i] = (key, value);
                return ;
            }
            i = i + 1;
        }
        proof {
            lemma_entries_to_map_contains(self.entries@, key@);
            assert(self.entries@.push((key, value)).drop_last() =~= self.entries@);
        }
        self.entries.push((key, value));
    }
}

} // verus!
