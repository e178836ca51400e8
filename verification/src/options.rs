//! Tables keyed by text with one entry per key: the option table of the
//! JavaScript transport configuration, and the facts about such tables.

use vstd::prelude::*;
use vstd::string::*;

verus! {

/// The text of each entry.
pub open spec fn pair_views(e: Seq<(String, String)>) -> Seq<(Seq<char>, Seq<char>)> {
    e.map_values(|p: (String, String)| (p.0@, p.1@))
}

/// No key occurs twice.
pub open spec fn keys_distinct<V>(e: Seq<(Seq<char>, V)>) -> bool {
    forall|i: int, j: int| 0 <= i < e.len() && 0 <= j < e.len() && i != j ==> e[i].0 != e[j].0
}

/// Whether some entry has key `k`.
pub open spec fn has_key<V>(e: Seq<(Seq<char>, V)>, k: Seq<char>) -> bool {
    exists|i: int| 0 <= i < e.len() && e[i].0 == k
}

/// The position of key `k` (meaningful when it occurs).
pub open spec fn key_index<V>(e: Seq<(Seq<char>, V)>, k: Seq<char>) -> int {
    choose|i: int| 0 <= i < e.len() && e[i].0 == k
}

/// The table that a list of entries describes.
pub open spec fn table_of<V>(e: Seq<(Seq<char>, V)>) -> Map<Seq<char>, V> {
    Map::new(|k: Seq<char>| has_key(e, k), |k: Seq<char>| e[key_index(e, k)].1)
}

/// With distinct keys, the entry holding a key is the one `key_index` names.
pub proof fn lemma_key_index_unique<V>(e: Seq<(Seq<char>, V)>, i: int)
    requires
        keys_distinct(e),
        0 <= i < e.len(),
    ensures
        has_key(e, e[i].0),
        key_index(e, e[i].0) == i,
{
    assert(0 <= i < e.len() && e[i].0 == e[i].0);
}

/// Replacing the entry of an existing key changes the table at that key only.
pub proof fn lemma_table_replace<V>(e: Seq<(Seq<char>, V)>, i: int, v: V)
    requires
        keys_distinct(e),
        0 <= i < e.len(),
    ensures
        keys_distinct(e.update(i, (e[i].0, v))),
        table_of(e.update(i, (e[i].0, v))) == table_of(e).insert(e[i].0, v),
{
    let k = e[i].0;
    let f = e.update(i, (k, v));
    assert(keys_distinct(f));
    assert forall|key: Seq<char>| has_key(f, key) <==> has_key(e, key) by {
        if has_key(f, key) {
            let j = choose|j: int| 0 <= j < f.len() && f[j].0 == key;
            assert(0 <= j < e.len() && e[j].0 == key);
        }
        if has_key(e, key) {
            let j = choose|j: int| 0 <= j < e.len() && e[j].0 == key;
            assert(0 <= j < f.len() && f[j].0 == key);
        }
    }
    assert forall|key: Seq<char>| has_key(f, key) implies table_of(f)[key] == table_of(e).insert(
        k,
        v,
    )[key] by {
        let j = key_index(f, key);
        lemma_key_index_unique(f, j);
        if key == k {
            lemma_key_index_unique(f, i);
        } else {
            lemma_key_index_unique(e, j);
        }
    }
    assert(table_of(f) =~= table_of(e).insert(k, v));
}

/// Appending an entry for a new key adds it to the table.
pub proof fn lemma_table_push<V>(e: Seq<(Seq<char>, V)>, k: Seq<char>, v: V)
    requires
        keys_distinct(e),
        !has_key(e, k),
    ensures
        keys_distinct(e.push((k, v))),
        table_of(e.push((k, v))) == table_of(e).insert(k, v),
{
    let f = e.push((k, v));
    assert forall|i: int, j: int|
        0 <= i < f.len() && 0 <= j < f.len() && i != j implies f[i].0 != f[j].0 by {
        if i == e.len() {
            assert(e[j].0 == f[j].0);
        } else if j == e.len() {
            assert(e[i].0 == f[i].0);
        }
    }
    assert forall|key: Seq<char>| has_key(f, key) <==> (has_key(e, key) || key == k) by {
        if has_key(f, key) && key != k {
            let j = choose|j: int| 0 <= j < f.len() && f[j].0 == key;
            assert(0 <= j < e.len() && e[j].0 == key);
        }
        if has_key(e, key) {
            let j = choose|j: int| 0 <= j < e.len() && e[j].0 == key;
            assert(0 <= j < f.len() && f[j].0 == key);
        }
        if key == k {
            assert(0 <= e.len() < f.len() && f[e.len() as int].0 == key);
        }
    }
    assert forall|key: Seq<char>| has_key(f, key) implies table_of(f)[key] == table_of(e).insert(
        k,
        v,
    )[key] by {
        let j = key_index(f, key);
        lemma_key_index_unique(f, j);
        if key == k {
            lemma_key_index_unique(f, e.len() as int);
        } else {
            lemma_key_index_unique(e, j);
        }
    }
    assert(table_of(f) =~= table_of(e).insert(k, v));
}

/// A table of string options, one value per key.
pub struct OptionMap {
    entries: Vec<(String, String)>,
}

impl View for OptionMap {
    type V = Map<Seq<char>, Seq<char>>;

    closed spec fn view(&self) -> Map<Seq<char>, Seq<char>> {
        table_of(pair_views(self.entries@))
    }
}

impl OptionMap {
    /// Whether no key occurs twice.
    pub closed spec fn wf(&self) -> bool {
        keys_distinct(pair_views(self.entries@))
    }

    /// The empty table.
    pub fn new() -> (m: OptionMap)
        ensures
            m.wf(),
            m@ == Map::<Seq<char>, Seq<char>>::empty(),
    {
        let m = OptionMap { entries: Vec::new() };
        assert(m@ =~= Map::<Seq<char>, Seq<char>>::empty());
        m
    }

    /// Number of keys.
    pub fn len(&self) -> (n: usize)
        requires
            self.wf(),
        ensures
            n == self@.dom().len(),
    {
        proof {
            self.lemma_dom_len();
        }
        self.entries.len()
    }

    /// The number of keys is the number of entries.
    proof fn lemma_dom_len(&self)
        requires
            self.wf(),
        ensures
            self@.dom().finite(),
            self@.dom().len() == self.entries@.len(),
    {
        let e = pair_views(self.entries@);
        let keys = e.map_values(|p: (Seq<char>, Seq<char>)| p.0);
        assert forall|i: int, j: int|
            0 <= i < keys.len() && 0 <= j < keys.len() && i != j implies keys[i] != keys[j] by {}
        assert(keys.no_duplicates());
        assert forall|k: Seq<char>| self@.dom().contains(k) <==> keys.to_set().contains(k) by {
            if self@.dom().contains(k) {
                let i = choose|i: int| 0 <= i < e.len() && e[i].0 == k;
                assert(keys[i] == k);
            }
            if keys.to_set().contains(k) {
                let i = choose|i: int| 0 <= i < keys.len() && keys[i] == k;
                assert(has_key(e, k));
            }
        }
        assert(self@.dom() =~= keys.to_set());
        keys.unique_seq_to_set();
    }

    /// Position of `key` among the entries, if present.
    fn find(&self, key: &str) -> (res: Option<usize>)
        requires
            self.wf(),
        ensures
            match res {
                Some(i) => i < self.entries@.len() && self.entries@[i as int].0@ == key@,
                None => !has_key(pair_views(self.entries@), key@),
            },
    {
        let mut i: usize = 0;
        while i < self.entries.len()
            invariant
                0 <= i <= self.entries@.len(),
                forall|j: int| 0 <= j < i ==> self.entries@[j].0@ != key@,
            decreases self.entries@.len() - i,
        {
            if crate::text::str_eq(self.entries[i].0.as_str(), key) {
                return Some(i);
            }
            i = i + 1;
        }
        proof {
            let e = pair_views(self.entries@);
            assert forall|j: int| 0 <= j < e.len() implies e[j].0 != key@ by {
                assert(e[j].0 == self.entries@[j].0@);
            }
        }
        None
    }

    /// Sets the value of `key`, replacing any earlier value.
    pub fn insert(&mut self, key: String, value: String)
        requires
            old(self).wf(),
        ensures
            final(self).wf(),
            final(self)@ == old(self)@.insert(key@, value@),
    {
        let ghost e = pair_views(self.entries@);
        match self.find(key.as_str()) {
            Some(i) => {
                proof {
                    lemma_table_replace(e, i as int, value@);
                }
                self.entries.set(i, (key, value));
                assert(pair_views(self.entries@) =~= e.update(i as int, (e[i as int].0, value@)));
            },
            None => {
                proof {
                    lemma_table_push(e, key@, value@);
                }
                self.entries.push((key, value));
                assert(pair_views(self.entries@) =~= e.push((key@, value@)));
            },
        }
    }

    /// A copy of the value of `key`, if present.
    pub fn get(&self, key: &str) -> (res: Option<String>)
        requires
            self.wf(),
        ensures
            match res {
                Some(v) => self@.contains_key(key@) && self@[key@] == v@,
                None => !self@.contains_key(key@),
            },
    {
        match self.find(key) {
            Some(i) => {
                proof {
                    lemma_key_index_unique(pair_views(self.entries@), i as int);
                }
                Some(self.entries[i].1.clone())
            },
            None => None,
        }
    }

    /// Copies of all entries, one per key.
    pub fn to_pairs(&self) -> (res: Vec<(String, String)>)
        requires
            self.wf(),
        ensures
            keys_distinct(pair_views(res@)),
            table_of(pair_views(res@)) == self@,
    {
        let mut res: Vec<(String, String)> = Vec::new();
        let mut i: usize = 0;
        while i < self.entries.len()
            invariant
                0 <= i <= self.entries@.len(),
                pair_views(res@) =~= pair_views(self.entries@).subrange(0, i as int),
            decreases self.entries@.len() - i,
        {
            let entry = &self.entries[i];
            let k = entry.0.clone();
            let v = entry.1.clone();
            assert(k@ == self.entries@[i as int].0@ && v@ == self.entries@[i as int].1@);
            let ghost before = res@;
            res.push((k, v));
            assert(pair_views(res@) =~= pair_views(before).push((k@, v@)));
            i = i + 1;
            assert(pair_views(res@) =~= pair_views(self.entries@).subrange(0, i as int));
        }
        assert(pair_views(res@) =~= pair_views(self.entries@));
        res
    }
}

} // verus!
