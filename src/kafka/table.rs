use vstd::prelude::*;

use crate::kafka::json::text_eq;

verus! {

/// Entries keyed by name, at most one per name, in insertion order.
pub struct KeyedTable<V> {
    entries: Vec<(String, V)>,
}

/// `i` holds an entry named `k`.
pub open spec fn named_at<V>(s: Seq<(String, V)>, k: Seq<char>, i: int) -> bool {
    0 <= i < s.len() && s[i].0@ == k
}

/// No two entries share a name.
pub open spec fn unique_names<V>(s: Seq<(String, V)>) -> bool {
    forall|i: int, j: int| 0 <= i < s.len() && 0 <= j < s.len() && s[i].0@ == s[j].0@ ==> i == j
}

/// The mapping from names to values that a sequence of entries stands for.
pub open spec fn table_map<V>(s: Seq<(String, V)>) -> Map<Seq<char>, V> {
    Map::new(
        |k: Seq<char>| exists|i: int| named_at(s, k, i),
        |k: Seq<char>| s[choose|i: int| named_at(s, k, i)].1,
    )
}

proof fn lemma_named_at_is_chosen<V>(s: Seq<(String, V)>, k: Seq<char>, i: int)
    requires
        unique_names(s),
        named_at(s, k, i),
    ensures
        table_map(s).contains_key(k),
        table_map(s)[k] == s[i].1,
{
    let c = choose|j: int| named_at(s, k, j);
    assert(named_at(s, k, c));
}

impl<V> KeyedTable<V> {
    pub closed spec fn entries_view(&self) -> Seq<(String, V)> {
        self.entries@
    }

    /// The table's entries as a map from names to values.
    pub open spec fn view(&self) -> Map<Seq<char>, V> {
        table_map(self.entries_view())
    }

    /// Every table has at most one entry per name.
    pub open spec fn wf(&self) -> bool {
        unique_names(self.entries_view())
    }

    /// An empty table.
    pub fn new() -> (r: Self)
        ensures
            r.wf(),
            r@ == Map::<Seq<char>, V>::empty(),
    {
        let r = KeyedTable { entries: Vec::new() };
        assert(r@ =~= Map::<Seq<char>, V>::empty());
        r
    }

    /// The number of entries.
    pub fn len(&self) -> (r: usize)
        requires
            self.wf(),
        ensures
            r == self@.len(),
    {
        proof {
            self.lemma_len();
        }
        self.entries.len()
    }

    proof fn lemma_len(&self)
        requires
            self.wf(),
        ensures
            self@.dom().finite(),
            self@.len() == self.entries_view().len(),
        decreases self.entries_view().len(),
    {
        let s = self.entries_view();
        let names = Seq::new(s.len(), |i: int| s[i].0@);
        assert forall|i: int, j: int| 0 <= i < names.len() && 0 <= j < names.len() && i != j implies names[i] != names[j] by {}
        names.unique_seq_to_set();
        assert(self@.dom() =~= names.to_set()) by {
            assert forall|k: Seq<char>| self@.dom().contains(k) implies names.to_set().contains(k) by {
                let i = choose|i: int| named_at(s, k, i);
                assert(names[i] == k);
            }
            assert forall|k: Seq<char>| names.to_set().contains(k) implies self@.dom().contains(k) by {
                let i = choose|i: int| 0 <= i < names.len() && names[i] == k;
                assert(named_at(s, k, i));
            }
        }
    }

    fn position(&self, name: &str) -> (r: Option<usize>)
        requires
            self.wf(),
        ensures
            match r {
                Some(i) => named_at(self.entries_view(), name@, i as int),
                None => !self@.contains_key(name@),
            },
    {
        let mut i: usize = 0;
        while i < self.entries.len()
            invariant
                i <= self.entries@.len(),
                forall|j: int| 0 <= j < i ==> self.entries@[j].0@ != name@,
            decreases self.entries@.len() - i,
        {
            if text_eq(self.entries[i].0.as_str(), name) {
                return Some(i);
            }
            i += 1;
        }
        None
    }

    /// Whether an entry is named `name`.
    pub fn contains(&self, name: &str) -> (r: bool)
        requires
            self.wf(),
        ensures
            r == self@.contains_key(name@),
    {
        match self.position(name) {
            Some(i) => {
                proof {
                    lemma_named_at_is_chosen(self.entries_view(), name@, i as int);
                }
                true
            },
            None => false,
        }
    }

    /// The value named `name`, if any.
    pub fn get(&self, name: &str) -> (r: Option<&V>)
        requires
            self.wf(),
        ensures
            match r {
                Some(v) => self@.contains_key(name@) && self@[name@] == *v,
                None => !self@.contains_key(name@),
            },
    {
        match self.position(name) {
            Some(i) => {
                proof {
                    lemma_named_at_is_chosen(self.entries_view(), name@, i as int);
                }
                Some(&self.entries[i].1)
            },
            None => None,
        }
    }

    /// Sets the value named `name`, replacing any earlier one.
    pub fn insert(&mut self, name: String, value: V)
        requires
            old(self).wf(),
        ensures
            final(self).wf(),
            final(self)@ == old(self)@.insert(name@, value),
    {
        let ghost prev = self.entries_view();
        let ghost k = name@;
        match self.position(name.as_str()) {
            Some(i) => {
                self.entries.set(i, (name, value));
                let ghost s = self.entries_view();
                assert forall|key: Seq<char>| #[trigger] self@.contains_key(key) == table_map(prev).insert(k, value).contains_key(key) by {
                    if key == k {
                        assert(named_at(s, key, i as int));
                    } else if table_map(prev).contains_key(key) {
                        let j = choose|j: int| named_at(prev, key, j);
                        assert(named_at(s, key, j));
                    } else if self@.contains_key(key) {
                        let j = choose|j: int| named_at(s, key, j);
                        assert(named_at(prev, key, j));
                    }
                }
                assert forall|key: Seq<char>| #[trigger] self@.contains_key(key) implies self@[key] == table_map(prev).insert(k, value)[key] by {
                    if key == k {
                        lemma_named_at_is_chosen(s, key, i as int);
                    } else {
                        let j = choose|j: int| named_at(s, key, j);
                        assert(named_at(prev, key, j));
                        lemma_named_at_is_chosen(s, key, j);
                        lemma_named_at_is_chosen(prev, key, j);
                    }
                }
                assert(self@ =~= old(self)@.insert(name@, value));
            },
            None => {
                self.entries.push((name, value));
                let ghost s = self.entries_view();
                let ghost n = prev.len() as int;
                assert(named_at(s, k, n));
                assert forall|a: int| 0 <= a < n implies prev[a].0@ != k by {
                    if prev[a].0@ == k {
                        assert(named_at(prev, k, a));
                    }
                }
                assert(unique_names(s));
                assert forall|key: Seq<char>| #[trigger] self@.contains_key(key) == table_map(prev).insert(k, value).contains_key(key) by {
                    if key == k {
                    } else if table_map(prev).contains_key(key) {
                        let j = choose|j: int| named_at(prev, key, j);
                        assert(named_at(s, key, j));
                    } else if self@.contains_key(key) {
                        let j = choose|j: int| named_at(s, key, j);
                        assert(named_at(prev, key, j));
                    }
                }
                assert forall|key: Seq<char>| #[trigger] self@.contains_key(key) implies self@[key] == table_map(prev).insert(k, value)[key] by {
                    if key == k {
                        lemma_named_at_is_chosen(s, key, n);
                    } else {
                        let j = choose|j: int| named_at(s, key, j);
                        assert(named_at(prev, key, j));
                        lemma_named_at_is_chosen(s, key, j);
                        lemma_named_at_is_chosen(prev, key, j);
                    }
                }
                assert(self@ =~= old(self)@.insert(name@, value));
            },
        }
    }

    /// Takes out the value named `name`, if any.
    pub fn remove(&mut self, name: &str) -> (r: Option<V>)
        requires
            old(self).wf(),
        ensures
            final(self).wf(),
            final(self)@ == old(self)@.remove(name@),
            match r {
                Some(v) => old(self)@.contains_key(name@) && old(self)@[name@] == v,
                None => !old(self)@.contains_key(name@),
            },
    {
        let ghost prev = self.entries_view();
        let ghost k = name@;
        match self.position(name) {
            Some(i) => {
                proof {
                    lemma_named_at_is_chosen(prev, k, i as int);
                }
                let (_, v) = self.entries.remove(i);
                let ghost s = self.entries_view();
                assert forall|key: Seq<char>| #[trigger] self@.contains_key(key) == table_map(prev).remove(k).contains_key(key) by {
                    if key == k {
                        if self@.contains_key(key) {
                            let j = choose|j: int| named_at(s, key, j);
                            if j < i {
                                assert(named_at(prev, key, j));
                            } else {
                                assert(named_at(prev, key, j + 1));
                            }
                        }
                    } else if table_map(prev).contains_key(key) {
                        let j = choose|j: int| named_at(prev, key, j);
                        if j < i {
                            assert(named_at(s, key, j));
                        } else {
                            assert(named_at(s, key, j - 1));
                        }
                    } else if self@.contains_key(key) {
                        let j = choose|j: int| named_at(s, key, j);
                        if j < i {
                            assert(named_at(prev, key, j));
                        } else {
                            assert(named_at(prev, key, j + 1));
                        }
                    }
                }
                assert forall|key: Seq<char>| #[trigger] self@.contains_key(key) implies self@[key] == table_map(prev).remove(k)[key] by {
                    let j = choose|j: int| named_at(s, key, j);
                    lemma_named_at_is_chosen(s, key, j);
                    if j < i {
                        lemma_named_at_is_chosen(prev, key, j);
                    } else {
                        lemma_named_at_is_chosen(prev, key, j + 1);
                    }
                }
                assert(self@ =~= old(self)@.remove(name@));
                Some(v)
            },
            None => {
                assert(self@ =~= old(self)@.remove(name@));
                None
            },
        }
    }

    /// The names of all entries, each once.
    pub fn names(&self) -> (r: Vec<String>)
        requires
            self.wf(),
        ensures
            r@.len() == self@.len(),
            forall|k: Seq<char>| self@.contains_key(k) <==> exists|i: int| 0 <= i < r@.len() && r@[i]@ == k,
    {
        proof {
            self.lemma_len();
        }
        let mut out: Vec<String> = Vec::new();
        let mut i: usize = 0;
        while i < self.entries.len()
            invariant
                i <= self.entries@.len(),
                out@.len() == i,
                forall|j: int| 0 <= j < i ==> out@[j] == self.entries@[j].0,
            decreases self.entries@.len() - i,
        {
            out.push(self.entries[i].0.clone());
            i += 1;
        }
        proof {
            let s = self.entries_view();
            assert forall|k: Seq<char>| self@.contains_key(k) <==> exists|i: int| 0 <= i < out@.len() && out@[i]@ == k by {
                if self@.contains_key(k) {
                    let j = choose|j: int| named_at(s, k, j);
                    assert(out@[j]@ == k);
                }
                if exists|i: int| 0 <= i < out@.len() && out@[i]@ == k {
                    let j = choose|i: int| 0 <= i < out@.len() && out@[i]@ == k;
                    assert(named_at(s, k, j));
                }
            }
        }
        out
    }
}

impl KeyedTable<String> {
    /// Every entry as a (name, value) pair, each name once.
    pub fn pairs(&self) -> (r: Vec<(String, String)>)
        requires
            self.wf(),
        ensures
            r@.len() == self@.len(),
            forall|i: int| 0 <= i < r@.len() ==> #[trigger] self@.contains_key(r@[i].0@) && self@[r@[i].0@] == r@[i].1,
            forall|k: Seq<char>| #[trigger] self@.contains_key(k) ==> exists|i: int| 0 <= i < r@.len() && r@[i].0@ == k,
    {
        proof {
            self.lemma_len();
        }
        let mut out: Vec<(String, String)> = Vec::new();
        let mut i: usize = 0;
        while i < self.entries.len()
            invariant
                i <= self.entries@.len(),
                out@.len() == i,
                forall|j: int| 0 <= j < i ==> out@[j] == self.entries@[j],
            decreases self.entries@.len() - i,
        {
            let (k, v) = (self.entries[i].0.clone(), self.entries[i].1.clone());
            out.push((k, v));
            i += 1;
        }
        proof {
            let s = self.entries_view();
            assert forall|i: int| 0 <= i < out@.len() implies #[trigger] self@.contains_key(out@[i].0@) && self@[out@[i].0@] == out@[i].1 by {
                lemma_named_at_is_chosen(s, out@[i].0@, i);
            }
            assert forall|k: Seq<char>| #[trigger] self@.contains_key(k) implies exists|i: int| 0 <= i < out@.len() && out@[i].0@ == k by {
                let j = choose|j: int| named_at(s, k, j);
                assert(out@[j].0@ == k);
            }
        }
        out
    }
}

} // verus!
