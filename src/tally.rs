use vstd::prelude::*;

verus! {

/// A map from strings to counts, kept as a list of entries in the order in
/// which their keys first arrived. No key occurs twice.
pub struct Tally {
    entries: Vec<(String, i32)>,
}

pub open spec fn keys_distinct(e: Seq<(String, i32)>) -> bool {
    forall|i: int, j: int|
        0 <= i < e.len() && 0 <= j < e.len() && i != j ==> #[trigger] e[i].0@ != #[trigger] e[j].0@
}

/// The map that a list of entries denotes: a later entry wins over an
/// earlier one with the same key.
pub open spec fn entries_map(e: Seq<(String, i32)>) -> Map<Seq<char>, i32>
    decreases e.len(),
{
    if e.len() == 0 {
        Map::empty()
    } else {
        entries_map(e.drop_last()).insert(e.last().0@, e.last().1)
    }
}

proof fn lemma_entries_map_has(e: Seq<(String, i32)>, i: int)
    requires
        keys_distinct(e),
        0 <= i < e.len(),
    ensures
        entries_map(e).contains_key(e[i].0@),
        entries_map(e)[e[i].0@] == e[i].1,
    decreases e.len(),
{
    if i < e.len() - 1 {
        let d = e.drop_last();
        assert(d[i] == e[i]);
        assert(keys_distinct(d)) by {
            assert forall|a: int, b: int|
                0 <= a < d.len() && 0 <= b < d.len() && a != b implies #[trigger] d[a].0@
                != #[trigger] d[b].0@ by {
                assert(d[a] == e[a] && d[b] == e[b]);
            }
        }
        lemma_entries_map_has(d, i);
        assert(e.last() == e[e.len() - 1]);
    }
}

proof fn lemma_entries_map_lacks(e: Seq<(String, i32)>, k: Seq<char>)
    requires
        forall|i: int| 0 <= i < e.len() ==> #[trigger] e[i].0@ != k,
    ensures
        !entries_map(e).contains_key(k),
    decreases e.len(),
{
    if e.len() > 0 {
        let d = e.drop_last();
        assert forall|i: int| 0 <= i < d.len() implies #[trigger] d[i].0@ != k by {
            assert(d[i] == e[i]);
        }
        lemma_entries_map_lacks(d, k);
        assert(e.last() == e[e.len() - 1]);
    }
}

proof fn lemma_entries_map_keys(e: Seq<(String, i32)>, k: Seq<char>)
    requires
        entries_map(e).contains_key(k),
    ensures
        exists|i: int| 0 <= i < e.len() && #[trigger] e[i].0@ == k,
{
    if forall|i: int| 0 <= i < e.len() ==> #[trigger] e[i].0@ != k {
        lemma_entries_map_lacks(e, k);
    }
}

impl View for Tally {
    type V = Map<Seq<char>, i32>;

    closed spec fn view(&self) -> Map<Seq<char>, i32> {
        entries_map(self.entries@)
    }
}

impl Tally {
    /// Each key occurs in one entry only.
    pub closed spec fn wf(&self) -> bool {
        keys_distinct(self.entries@)
    }

    /// The entries, in the order in which their keys first arrived.
    pub closed spec fn spec_entries(&self) -> Seq<(String, i32)> {
        self.entries@
    }

    /// An empty tally.
    pub fn new() -> (r: Tally)
        ensures
            r.wf(),
            r@ == Map::<Seq<char>, i32>::empty(),
            r.spec_entries().len() == 0,
    {
        Tally { entries: Vec::new() }
    }

    /// The entries, in the order in which their keys first arrived.
    pub fn entries(&self) -> (r: &Vec<(String, i32)>)
        requires
            self.wf(),
        ensures
            r@ == self.spec_entries(),
            keys_distinct(r@),
            entries_map(r@) == self@,
    {
        &self.entries
    }

    /// The number of distinct keys.
    pub fn len(&self) -> (r: usize)
        requires
            self.wf(),
        ensures
            r == self@.dom().len(),
    {
        proof {
            self.lemma_dom_len();
        }
        self.entries.len()
    }

    proof fn lemma_dom_len(&self)
        requires
            self.wf(),
        ensures
            self@.dom().len() == self.entries@.len(),
    {
        let e = self.entries@;
        let keys = Seq::new(e.len(), |i: int| e[i].0@);
        assert(keys.no_duplicates());
        assert(self@.dom() =~= keys.to_set()) by {
            assert forall|k: Seq<char>| self@.dom().contains(k) implies keys.to_set().contains(k) by {
                lemma_entries_map_keys(e, k);
                let i = choose|i: int| 0 <= i < e.len() && #[trigger] e[i].0@ == k;
                assert(keys[i] == k);
            }
            assert forall|k: Seq<char>| keys.to_set().contains(k) implies self@.dom().contains(k) by {
                let i = choose|i: int| 0 <= i < keys.len() && keys[i] == k;
                lemma_entries_map_has(e, i);
            }
        }
        keys.unique_seq_to_set();
    }

    /// Where `key` stands among the entries, if it does.
    fn position(&self, key: &String) -> (r: Option<usize>)
        requires
            self.wf(),
        ensures
            r matches Some(i) ==> i < self.entries@.len() && self.entries@[i as int].0@ == key@,
            r is None ==> !self@.contains_key(key@),
    {
        let mut i: usize = 0;
        while i < self.entries.len()
            invariant
                i <= self.entries@.len(),
                forall|j: int| 0 <= j < i ==> #[trigger] self.entries@[j].0@ != key@,
            decreases self.entries@.len() - i,
        {
            if self.entries[i].0 == *key {
                return Some(i);
            }
            i += 1;
        }
        proof {
            lemma_entries_map_lacks(self.entries@, key@);
        }
        None
    }

    /// The count under `key`, if there is one.
    pub fn get(&self, key: &String) -> (r: Option<i32>)
        requires
            self.wf(),
        ensures
            r == (if self@.contains_key(key@) {
                Some(self@[key@])
            } else {
                None
            }),
    {
        match self.position(key) {
            Some(i) => {
                proof {
                    lemma_entries_map_has(self.entries@, i as int);
                }
                Some(self.entries[i].1)
            },
            None => None,
        }
    }

    proof fn lemma_update(e: Seq<(String, i32)>, i: int, v: i32)
        requires
            keys_distinct(e),
            0 <= i < e.len(),
        ensures
            keys_distinct(e.update(i, (e[i].0, v))),
            entries_map(e.update(i, (e[i].0, v))) == entries_map(e).insert(e[i].0@, v),
    {
        let u = e.update(i, (e[i].0, v));
        assert(keys_distinct(u)) by {
            assert forall|a: int, b: int|
                0 <= a < u.len() && 0 <= b < u.len() && a != b implies #[trigger] u[a].0@
                != #[trigger] u[b].0@ by {
                assert(u[a].0 == e[a].0 && u[b].0 == e[b].0);
            }
        }
        let m = entries_map(e).insert(e[i].0@, v);
        assert forall|k: Seq<char>| #[trigger] m.contains_key(k) implies entries_map(u).contains_key(k)
            && entries_map(u)[k] == m[k] by {
            if k == e[i].0@ {
                lemma_entries_map_has(u, i);
            } else {
                lemma_entries_map_keys(e, k);
                let j = choose|j: int| 0 <= j < e.len() && #[trigger] e[j].0@ == k;
                lemma_entries_map_has(e, j);
                lemma_entries_map_has(u, j);
            }
        }
        assert forall|k: Seq<char>| #[trigger] entries_map(u).contains_key(k) implies m.contains_key(
            k,
        ) by {
            lemma_entries_map_keys(u, k);
            let j = choose|j: int| 0 <= j < u.len() && #[trigger] u[j].0@ == k;
            if j != i {
                lemma_entries_map_has(e, j);
            }
        }
        assert(entries_map(u) =~= m);
    }

    /// Sets the count under `key` to `value`, replacing any earlier count.
    pub fn insert(&mut self, key: String, value: i32)
        requires
            old(self).wf(),
        ensures
            final(self).wf(),
            final(self)@ == old(self)@.insert(key@, value),
    {
        match self.position(&key) {
            Some(i) => {
                proof {
                    Self::lemma_update(self.entries@, i as int, value);
                }
                let k = self.entries[i].0.clone();
                self.entries.set(i, (k, value));
            },
            None => {
                proof {
                    let e = self.entries@;
                    let p = e.push((key, value));
                    assert(p.drop_last() == e);
                    assert forall|a: int, b: int|
                        0 <= a < p.len() && 0 <= b < p.len() && a != b implies #[trigger] p[a].0@
                        != #[trigger] p[b].0@ by {
                        if a < e.len() && b < e.len() {
                            assert(p[a] == e[a] && p[b] == e[b]);
                        } else if a < e.len() {
                            assert(p[a] == e[a]);
                            if e[a].0@ == key@ {
                                lemma_entries_map_has(e, a);
                            }
                        } else {
                            assert(p[b] == e[b]);
                            if e[b].0@ == key@ {
                                lemma_entries_map_has(e, b);
                            }
                        }
                    }
                }
                self.entries.push((key, value));
            },
        }
    }

    /// Sets the count under `key` to `value` only where `key` has none yet.
    pub fn or_insert(&mut self, key: String, value: i32)
        requires
            old(self).wf(),
        ensures
            final(self).wf(),
            final(self)@ == (if old(self)@.contains_key(key@) {
                old(self)@
            } else {
                old(self)@.insert(key@, value)
            }),
    {
        if self.get(&key).is_none() {
            self.insert(key, value);
        }
    }

    /// Adds one to the count under `key`, starting from zero where it has
    /// none yet.
    pub fn add_one(&mut self, key: String)
        requires
            old(self).wf(),
            old(self)@.contains_key(key@) ==> old(self)@[key@] < i32::MAX,
        ensures
            final(self).wf(),
            final(self)@ == old(self)@.insert(
                key@,
                if old(self)@.contains_key(key@) {
                    (old(self)@[key@] + 1) as i32
                } else {
                    1i32
                },
            ),
    {
        let n = match self.get(&key) {
            Some(c) => c + 1,
            None => 1,
        };
        self.insert(key, n);
    }
}

} // verus!
