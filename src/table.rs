use vstd::prelude::*;

verus! {

/// The value bound to `key` in `entries`: the last entry with that key wins.
pub open spec fn find<V>(entries: Seq<(String, V)>, key: Seq<char>) -> Option<V>
    decreases entries.len(),
{
    if entries.len() == 0 {
        None
    } else if entries.last().0@ == key {
        Some(entries.last().1)
    } else {
        find(entries.drop_last(), key)
    }
}

/// A small association table from names to values.
pub struct NameTable<V> {
    pub entries: Vec<(String, V)>,
}

impl<V> View for NameTable<V> {
    type V = Map<Seq<char>, V>;

    open spec fn view(&self) -> Map<Seq<char>, V> {
        Map::new(|k: Seq<char>| find(self.entries@, k) is Some, |k: Seq<char>| find(self.entries@, k)->0)
    }
}

proof fn lemma_find_push<V>(s: Seq<(String, V)>, e: (String, V), key: Seq<char>)
    ensures
        find(s.push(e), key) == if e.0@ == key { Some(e.1) } else { find(s, key) },
{
    assert(s.push(e).drop_last() =~= s);
}

proof fn lemma_find_update<V>(s: Seq<(String, V)>, i: int, e: (String, V), key: Seq<char>)
    requires
        0 <= i < s.len(),
        s[i].0@ == e.0@,
        forall|j: int| i < j < s.len() ==> s[j].0@ != e.0@,
    ensures
        find(s.update(i, e), key) == if e.0@ == key { Some(e.1) } else { find(s, key) },
    decreases s.len(),
{
    if i < s.len() - 1 {
        assert(s.update(i, e).drop_last() =~= s.drop_last().update(i, e));
        lemma_find_update(s.drop_last(), i, e, key);
    } else {
        assert(s.update(i, e).drop_last() =~= s.drop_last());
    }
}

proof fn lemma_find_prefix<V>(s: Seq<(String, V)>, n: int, key: Seq<char>)
    requires
        0 <= n <= s.len(),
        forall|j: int| n <= j < s.len() ==> s[j].0@ != key,
    ensures
        find(s, key) == find(s.subrange(0, n), key),
    decreases s.len() - n,
{
    if n < s.len() {
        assert(s.drop_last() =~= s.subrange(0, s.len() - 1));
        assert(s.subrange(0, s.len() - 1).subrange(0, n) =~= s.subrange(0, n));
        lemma_find_prefix(s.drop_last(), n, key);
    } else {
        assert(s.subrange(0, n) =~= s);
    }
}

impl<V> NameTable<V> {
    pub fn new() -> (r: Self)
        ensures
            r@ == Map::<Seq<char>, V>::empty(),
    {
        let r = NameTable { entries: Vec::new() };
        assert(r@ =~= Map::<Seq<char>, V>::empty());
        r
    }

    /// The position of the entry that binds `key`, if any.
    fn position(&self, key: &String) -> (r: Option<usize>)
        ensures
            match r {
                Some(i) => {
                    &&& i < self.entries@.len()
                    &&& self.entries@[i as int].0@ == key@
                    &&& forall|j: int| i < j < self.entries@.len() ==> self.entries@[j].0@ != key@
                },
                None => forall|j: int| 0 <= j < self.entries@.len() ==> self.entries@[j].0@ != key@,
            },
    {
        let mut i: usize = self.entries.len();
        while i > 0
            invariant
                i <= self.entries@.len(),
                forall|j: int| i <= j < self.entries@.len() ==> self.entries@[j].0@ != key@,
            decreases i,
        {
            i = i - 1;
            if self.entries[i].0 == *key {
                return Some(i);
            }
        }
        None
    }

    pub fn contains_key(&self, key: &String) -> (r: bool)
        ensures
            r == self@.contains_key(key@),
    {
        let p = self.position(key);
        proof {
            match p {
                Some(i) => {
                    lemma_find_prefix(self.entries@, i + 1, key@);
                    assert(self.entries@.subrange(0, i + 1).drop_last() =~= self.entries@.subrange(0, i as int));
                },
                None => {
                    lemma_find_prefix(self.entries@, 0, key@);
                },
            }
        }
        p.is_some()
    }

    pub fn get(&self, key: &String) -> (r: Option<&V>)
        ensures
            match r {
                Some(v) => self@.contains_key(key@) && self@[key@] == *v,
                None => !self@.contains_key(key@),
            },
    {
        let p = self.position(key);
        match p {
            Some(i) => {
                proof {
                    lemma_find_prefix(self.entries@, i + 1, key@);
                    assert(self.entries@.subrange(0, i + 1).drop_last() =~= self.entries@.subrange(0, i as int));
                }
                Some(&self.entries[i].1)
            },
            None => {
                proof {
                    lemma_find_prefix(self.entries@, 0, key@);
                }
                None
            },
        }
    }

    /// A mutable borrow of the value bound to `key`.
    pub fn get_mut(&mut self, key: &String) -> (r: Option<&mut V>)
        ensures
            match r {
                Some(v) => {
                    &&& old(self)@.contains_key(key@)
                    &&& *v == old(self)@[key@]
                    &&& final(self)@ == old(self)@.insert(key@, *final(v))
                },
                None => !old(self)@.contains_key(key@) && final(self)@ == old(self)@,
            },
    {
        let p = self.position(key);
        match p {
            Some(i) => {
                proof {
                    lemma_find_prefix(self.entries@, i + 1, key@);
                    assert(self.entries@.subrange(0, i + 1).drop_last() =~= self.entries@.subrange(0, i as int));
                }
                let ghost pre = self.entries@;
                let entry = &mut self.entries[i];
                let value = &mut entry.1;
                proof {
                    let e = (pre[i as int].0, *final(value));
                    assert forall|q: Seq<char>| find(pre.update(i as int, e), q) == if key@ == q { Some(e.1) } else { find(pre, q) } by {
                        lemma_find_update(pre, i as int, e, q);
                    }
                }
                Some(value)
            },
            None => {
                proof {
                    lemma_find_prefix(self.entries@, 0, key@);
                }
                None
            },
        }
    }

    pub fn insert(&mut self, key: String, value: V)
        ensures
            final(self)@ == old(self)@.insert(key@, value),
    {
        let p = self.position(&key);
        let ghost k = key@;
        let ghost e = (key, value);
        match p {
            Some(i) => {
                proof {
                    assert forall|q: Seq<char>| find(self.entries@.update(i as int, e), q) == if k == q { Some(value) } else { find(self.entries@, q) } by {
                        lemma_find_update(self.entries@, i as int, e, q);
                    }
                }
                self.entries.set(i, (key, value));
            },
            None => {
                proof {
                    assert forall|q: Seq<char>| find(self.entries@.push(e), q) == if k == q { Some(value) } else { find(self.entries@, q) } by {
                        lemma_find_push(self.entries@, e, q);
                    }
                }
                self.entries.push((key, value));
            },
        }
        assert(self@ =~= old(self)@.insert(k, value));
    }
}

} // verus!
