use crate::text::names;
use vstd::prelude::*;

verus! {

/// A finite map from names to values, as two parallel sequences. The first entry
/// with a given key is the one that counts; `put` overwrites it in place.
pub struct Tab<V> {
    pub keys: Seq<Seq<char>>,
    pub vals: Seq<V>,
}

/// Index of the first key equal to `k`, searching from `i`.
pub open spec fn find_from(keys: Seq<Seq<char>>, k: Seq<char>, i: int) -> Option<int>
    decreases keys.len() - i,
{
    if i < 0 || i >= keys.len() {
        None
    } else if keys[i] == k {
        Some(i)
    } else {
        find_from(keys, k, i + 1)
    }
}

pub proof fn lemma_find_from_range(keys: Seq<Seq<char>>, k: Seq<char>, i: int)
    ensures
        find_from(keys, k, i) matches Some(j) ==> i <= j < keys.len() && keys[j] == k,
    decreases keys.len() - i,
{
    if 0 <= i < keys.len() && keys[i] != k {
        lemma_find_from_range(keys, k, i + 1);
    }
}

impl<V> Tab<V> {
    pub open spec fn empty() -> Tab<V> {
        Tab { keys: Seq::empty(), vals: Seq::empty() }
    }

    pub open spec fn wf(self) -> bool {
        self.keys.len() == self.vals.len()
    }

    pub open spec fn find(self, k: Seq<char>) -> Option<int> {
        find_from(self.keys, k, 0)
    }

    pub open spec fn get(self, k: Seq<char>) -> Option<V> {
        match self.find(k) {
            Some(i) => Some(self.vals[i]),
            None => None,
        }
    }

    pub open spec fn contains(self, k: Seq<char>) -> bool {
        self.find(k) is Some
    }

    pub open spec fn put(self, k: Seq<char>, v: V) -> Tab<V> {
        match self.find(k) {
            Some(i) => Tab { keys: self.keys, vals: self.vals.update(i, v) },
            None => Tab { keys: self.keys.push(k), vals: self.vals.push(v) },
        }
    }

    pub open spec fn map<W>(self, f: spec_fn(V) -> W) -> Tab<W> {
        Tab { keys: self.keys, vals: self.vals.map_values(f) }
    }
}

/// Mapping the values commutes with `put` and with `get`.
pub proof fn lemma_map_put<V, W>(t: Tab<V>, k: Seq<char>, v: V, f: spec_fn(V) -> W)
    requires
        t.wf(),
    ensures
        t.put(k, v).map(f) == t.map(f).put(k, f(v)),
        t.put(k, v).wf(),
        t.map(f).get(k) == (match t.get(k) {
            Some(x) => Some(f(x)),
            None => None,
        }),
{
    lemma_find_from_range(t.keys, k, 0);
    assert(t.put(k, v).map(f).vals =~= t.map(f).put(k, f(v)).vals);
}

proof fn lemma_find_push(keys: Seq<Seq<char>>, k: Seq<char>, i: int)
    requires
        0 <= i <= keys.len(),
        find_from(keys, k, i) is None,
    ensures
        find_from(keys.push(k), k, i) == Some(keys.len() as int),
    decreases keys.len() - i,
{
    if i < keys.len() {
        assert(keys.push(k)[i] == keys[i]);
        lemma_find_push(keys, k, i + 1);
    }
}

proof fn lemma_find_same(keys: Seq<Seq<char>>, k: Seq<char>, k2: Seq<char>, i: int)
    requires
        0 <= i <= keys.len(),
        k2 != k,
    ensures
        find_from(keys.push(k), k2, i) == find_from(keys, k2, i),
    decreases keys.len() - i,
{
    if i < keys.len() {
        assert(keys.push(k)[i] == keys[i]);
        lemma_find_same(keys, k, k2, i + 1);
    } else {
        assert(keys.push(k)[i] == k);
        assert(find_from(keys.push(k), k2, i + 1) is None);
    }
}

/// After `put(k, v)`, `k` holds `v` and every other key holds what it held.
pub proof fn lemma_put_get<V>(t: Tab<V>, k: Seq<char>, v: V, k2: Seq<char>)
    requires
        t.wf(),
    ensures
        t.put(k, v).get(k) == Some(v),
        k2 != k ==> t.put(k, v).get(k2) == t.get(k2),
        k2 != k ==> t.put(k, v).contains(k2) == t.contains(k2),
{
    lemma_find_from_range(t.keys, k, 0);
    lemma_find_from_range(t.keys, k2, 0);
    if t.find(k) is None {
        lemma_find_push(t.keys, k, 0);
        if k2 != k {
            lemma_find_same(t.keys, k, k2, 0);
        }
    }
}

/// Mapping the values commutes with `get`.
pub proof fn lemma_map_get<V, W>(t: Tab<V>, k: Seq<char>, f: spec_fn(V) -> W)
    requires
        t.wf(),
    ensures
        t.map(f).get(k) == (match t.get(k) {
            Some(x) => Some(f(x)),
            None => None,
        }),
        t.map(f).contains(k) == t.contains(k),
        t.map(f).wf(),
{
    lemma_find_from_range(t.keys, k, 0);
}

/// An executable table: keys and values side by side.
pub struct Table<V> {
    pub keys: Vec<String>,
    pub vals: Vec<V>,
}

impl<V> Table<V> {
    pub open spec fn model(&self) -> Tab<V> {
        Tab { keys: names(self.keys@), vals: self.vals@ }
    }

    pub fn new() -> (r: Self)
        ensures
            r.model() == Tab::<V>::empty(),
    {
        let r = Table { keys: Vec::new(), vals: Vec::new() };
        assert(r.model().keys =~= Seq::<Seq<char>>::empty());
        assert(r.model().vals =~= Seq::<V>::empty());
        r
    }

    pub fn find(&self, k: &String) -> (r: Option<usize>)
        ensures
            match r {
                Some(i) => self.model().find(k@) == Some(i as int),
                None => self.model().find(k@) is None,
            },
    {
        let mut i: usize = 0;
        while i < self.keys.len()
            invariant
                i <= self.keys@.len(),
                find_from(names(self.keys@), k@, 0) == find_from(names(self.keys@), k@, i as int),
            decreases self.keys@.len() - i,
        {
            if self.keys[i] == *k {
                return Some(i);
            }
            i = i + 1;
        }
        None
    }

    pub fn get(&self, k: &String) -> (r: Option<&V>)
        requires
            self.model().wf(),
        ensures
            match r {
                Some(v) => self.model().get(k@) == Some(*v),
                None => self.model().get(k@) is None,
            },
    {
        match self.find(k) {
            Some(i) => {
                proof {
                    lemma_find_from_range(self.model().keys, k@, 0);
                }
                Some(&self.vals[i])
            },
            None => None,
        }
    }

    pub fn put(&mut self, k: String, v: V)
        requires
            old(self).model().wf(),
        ensures
            final(self).model() == old(self).model().put(k@, v),
            final(self).model().wf(),
    {
        match self.find(&k) {
            Some(i) => {
                proof {
                    lemma_find_from_range(old(self).model().keys, k@, 0);
                }
                self.vals.set(i, v);
            },
            None => {
                self.keys.push(k);
                self.vals.push(v);
            },
        }
        assert(self.model().keys =~= old(self).model().put(k@, v).keys);
        assert(self.model().vals =~= old(self).model().put(k@, v).vals);
    }
}

} // verus!
