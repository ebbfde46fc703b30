//! A small map from strings to values that keeps its entries in the order in
//! which their keys were first inserted.

use vstd::prelude::*;
use vstd::string::StringExecFns;

verus! {

/// No two pairs of `p` carry the same key.
pub open spec fn distinct_pairs<T>(p: Seq<(Seq<char>, T)>) -> bool {
    forall|i: int, j: int| 0 <= i < j < p.len() ==> (#[trigger] p[i]).0 != (#[trigger] p[j]).0
}

/// Pair `i` of `p` exists and carries the key `k`.
pub open spec fn pair_at<T>(p: Seq<(Seq<char>, T)>, k: Seq<char>, i: int) -> bool {
    0 <= i < p.len() && p[i].0 == k
}

/// Some pair of `p` carries the key `k`.
pub open spec fn has_pair<T>(p: Seq<(Seq<char>, T)>, k: Seq<char>) -> bool {
    exists|i: int| pair_at(p, k, i)
}

/// A position at which `p` carries the key `k`, where there is one.
pub open spec fn pair_index<T>(p: Seq<(Seq<char>, T)>, k: Seq<char>) -> int {
    choose|i: int| pair_at(p, k, i)
}

/// The finite map that a list of pairs stands for.
pub open spec fn bindings<T>(p: Seq<(Seq<char>, T)>) -> Map<Seq<char>, T> {
    Map::new(|k: Seq<char>| has_pair(p, k), |k: Seq<char>| p[pair_index(p, k)].1)
}

/// `p` after binding `k` to `v`: overwritten in place, or appended.
pub open spec fn insert_pair<T>(p: Seq<(Seq<char>, T)>, k: Seq<char>, v: T) -> Seq<
    (Seq<char>, T),
> {
    if has_pair(p, k) {
        p.update(pair_index(p, k), (k, v))
    } else {
        p.push((k, v))
    }
}

/// `p` without the pair that carries `k`.
pub open spec fn remove_pair<T>(p: Seq<(Seq<char>, T)>, k: Seq<char>) -> Seq<(Seq<char>, T)> {
    if has_pair(p, k) {
        p.remove(pair_index(p, k))
    } else {
        p
    }
}

/// With distinct keys, pair `i` is what the map holds under its key, and the
/// only pair with that key.
pub proof fn lemma_binding<T>(p: Seq<(Seq<char>, T)>, i: int)
    requires
        distinct_pairs(p),
        0 <= i < p.len(),
    ensures
        has_pair(p, p[i].0),
        pair_index(p, p[i].0) == i,
        bindings(p).contains_key(p[i].0),
        bindings(p)[p[i].0] == p[i].1,
{
    let k = p[i].0;
    assert(pair_at(p, k, i));
    let j = pair_index(p, k);
    assert(pair_at(p, k, j));
    if i < j {
        assert(p[i].0 != p[j].0);
    } else if j < i {
        assert(p[j].0 != p[i].0);
    }
}

/// Binding a key keeps the keys distinct and is `Map::insert` on the map.
pub proof fn lemma_insert_pair<T>(p: Seq<(Seq<char>, T)>, k: Seq<char>, v: T)
    requires
        distinct_pairs(p),
    ensures
        distinct_pairs(insert_pair(p, k, v)),
        bindings(insert_pair(p, k, v)) == bindings(p).insert(k, v),
{
    let q = insert_pair(p, k, v);
    let at = if has_pair(p, k) { pair_index(p, k) } else { p.len() as int };
    if has_pair(p, k) {
        assert(pair_at(p, k, at));
    }
    assert(q.len() > at && q[at] == (k, v));
    assert forall|j: int| 0 <= j < q.len() && j != at implies 0 <= j < p.len() && q[j] == p[j]
        && p[j].0 != k by {
        if p[j].0 == k {
            assert(pair_at(p, k, j));
            lemma_binding(p, j);
        }
    }
    assert forall|a: int, b: int| 0 <= a < b < q.len() implies (#[trigger] q[a]).0 != (
    #[trigger] q[b]).0 by {
        if a != at && b != at {
            assert(p[a].0 != p[b].0);
        }
    }
    lemma_binding(q, at);
    let lhs = bindings(q);
    let rhs = bindings(p).insert(k, v);
    assert forall|x: Seq<char>| lhs.contains_key(x) <==> rhs.contains_key(x) by {
        if lhs.contains_key(x) && x != k {
            let j = pair_index(q, x);
            assert(pair_at(q, x, j));
            assert(pair_at(p, x, j));
        }
        if rhs.contains_key(x) && x != k {
            let j = pair_index(p, x);
            assert(pair_at(p, x, j));
            assert(pair_at(q, x, j));
        }
    }
    assert forall|x: Seq<char>| lhs.contains_key(x) implies lhs[x] == rhs[x] by {
        if x != k {
            let j = pair_index(q, x);
            assert(pair_at(q, x, j));
            lemma_binding(q, j);
            lemma_binding(p, j);
        }
    }
    assert(lhs =~= rhs);
}

/// Removing a key keeps the keys distinct and is `Map::remove` on the map.
pub proof fn lemma_remove_pair<T>(p: Seq<(Seq<char>, T)>, k: Seq<char>)
    requires
        distinct_pairs(p),
    ensures
        distinct_pairs(remove_pair(p, k)),
        bindings(remove_pair(p, k)) == bindings(p).remove(k),
{
    let q = remove_pair(p, k);
    if has_pair(p, k) {
        let at = pair_index(p, k);
        assert(pair_at(p, k, at));
        assert forall|a: int, b: int| 0 <= a < b < q.len() implies (#[trigger] q[a]).0 != (
        #[trigger] q[b]).0 by {
            let a0 = if a < at { a } else { a + 1 };
            let b0 = if b < at { b } else { b + 1 };
            assert(p[a0].0 != p[b0].0);
        }
        let lhs = bindings(q);
        let rhs = bindings(p).remove(k);
        assert forall|x: Seq<char>| lhs.contains_key(x) <==> rhs.contains_key(x) by {
            if lhs.contains_key(x) {
                let j = pair_index(q, x);
                assert(pair_at(q, x, j));
                let j0 = if j < at { j } else { j + 1 };
                assert(pair_at(p, x, j0));
                lemma_binding(p, j0);
            }
            if rhs.contains_key(x) {
                let j = pair_index(p, x);
                assert(pair_at(p, x, j));
                let j1 = if j < at { j } else { j - 1 };
                assert(pair_at(q, x, j1));
            }
        }
        assert forall|x: Seq<char>| lhs.contains_key(x) implies lhs[x] == rhs[x] by {
            let j = pair_index(q, x);
            assert(pair_at(q, x, j));
            lemma_binding(q, j);
            let j0 = if j < at { j } else { j + 1 };
            lemma_binding(p, j0);
        }
        assert(lhs =~= rhs);
    } else {
        assert(bindings(p) =~= bindings(p).remove(k));
    }
}

/// With distinct keys, the map has as many bindings as the list has pairs.
pub proof fn lemma_bindings_len<T>(p: Seq<(Seq<char>, T)>)
    requires
        distinct_pairs(p),
    ensures
        bindings(p).dom().finite(),
        bindings(p).len() == p.len(),
    decreases p.len(),
{
    if p.len() == 0 {
        assert(bindings(p) =~= Map::<Seq<char>, T>::empty());
    } else {
        let q = p.drop_last();
        let k = p.last().0;
        let v = p.last().1;
        lemma_bindings_len(q);
        if has_pair(q, k) {
            let j = pair_index(q, k);
            assert(pair_at(q, k, j));
            assert(p[j].0 != p[p.len() - 1].0);
        }
        assert(p =~= insert_pair(q, k, v));
        lemma_insert_pair(q, k, v);
        assert(!bindings(q).contains_key(k));
    }
}

/// The entries of `s` as pairs of views, in order.
pub open spec fn pairs_of<V: View>(s: Seq<(String, V)>) -> Seq<(Seq<char>, V::V)> {
    Seq::new(s.len(), |i: int| (s[i].0@, s[i].1@))
}

/// A map from strings to values, ordered by first insertion of each key.
#[derive(Debug)]
pub struct Dict<V: View> {
    entries: Vec<(String, V)>,
}

impl<V: View> View for Dict<V> {
    type V = Map<Seq<char>, V::V>;

    open spec fn view(&self) -> Map<Seq<char>, V::V> {
        bindings(self.pairs())
    }
}

impl<V: View> Dict<V> {
    #[verifier::type_invariant]
    spec fn inv(&self) -> bool {
        distinct_pairs(pairs_of(self.entries@))
    }

    /// The entries in insertion order, each key and value by its view.
    pub closed spec fn pairs(&self) -> Seq<(Seq<char>, V::V)> {
        pairs_of(self.entries@)
    }

    /// A map without entries.
    pub fn new() -> (out: Self)
        ensures
            out.pairs() == Seq::<(Seq<char>, V::V)>::empty(),
            out@ == Map::<Seq<char>, V::V>::empty(),
    {
        let out = Dict { entries: Vec::new() };
        assert(out.pairs() =~= Seq::<(Seq<char>, V::V)>::empty());
        assert(out@ =~= Map::<Seq<char>, V::V>::empty());
        out
    }

    /// The number of entries. No key occurs twice among them, so this is
    /// the number of bindings of the map as well.
    pub fn len(&self) -> (n: usize)
        ensures
            n == self.pairs().len(),
            n == self@.len(),
            distinct_pairs(self.pairs()),
    {
        proof {
            use_type_invariant(self);
            lemma_bindings_len(self.pairs());
        }
        self.entries.len()
    }

    /// Key of the entry at position `i`.
    pub fn key_at(&self, i: usize) -> (k: &String)
        requires
            i < self.pairs().len(),
        ensures
            k@ == self.pairs()[i as int].0,
    {
        &self.entries[i].0
    }

    /// Value of the entry at position `i`.
    pub fn value_at(&self, i: usize) -> (v: &V)
        requires
            i < self.pairs().len(),
        ensures
            v@ == self.pairs()[i as int].1,
    {
        &self.entries[i].1
    }

    fn position(&self, key: &String) -> (at: Option<usize>)
        ensures
            distinct_pairs(self.pairs()),
            match at {
                Some(i) => pair_at(self.pairs(), key@, i as int) && pair_index(
                    self.pairs(),
                    key@,
                ) == i,
                None => !has_pair(self.pairs(), key@),
            },
    {
        proof {
            use_type_invariant(self);
        }
        let mut i: usize = 0;
        while i < self.entries.len()
            invariant
                i <= self.entries.len(),
                distinct_pairs(self.pairs()),
                forall|j: int| 0 <= j < i ==> !pair_at(self.pairs(), key@, j),
            decreases self.entries.len() - i,
        {
            if self.entries[i].0 == *key {
                proof {
                    lemma_binding(self.pairs(), i as int);
                }
                return Some(i);
            }
            i += 1;
        }
        None
    }

    /// Whether `key` is bound.
    pub fn contains_key(&self, key: &str) -> (found: bool)
        ensures
            found == self@.contains_key(key@),
    {
        let k = String::from_str(key);
        self.position(&k).is_some()
    }

    /// The value bound to `key`, if there is one.
    pub fn get(&self, key: &str) -> (found: Option<&V>)
        ensures
            match found {
                Some(v) => self@.contains_key(key@) && self@[key@] == v@,
                None => !self@.contains_key(key@),
            },
    {
        let k = String::from_str(key);
        match self.position(&k) {
            Some(i) => {
                proof {
                    lemma_binding(self.pairs(), i as int);
                }
                Some(&self.entries[i].1)
            },
            None => None,
        }
    }

    /// Binds `key` to `value`: an existing binding is overwritten in place, a
    /// new one goes to the end.
    pub fn insert(&mut self, key: String, value: V)
        ensures
            final(self).pairs() == insert_pair(old(self).pairs(), key@, value@),
            final(self)@ == old(self)@.insert(key@, value@),
    {
        let ghost before = self.pairs();
        let ghost k = key@;
        let ghost v = value@;
        let at = self.position(&key);
        proof {
            lemma_insert_pair(before, k, v);
        }
        let mut entries: Vec<(String, V)> = Vec::new();
        core::mem::swap(&mut self.entries, &mut entries);
        match at {
            Some(i) => {
                assert(pairs_of(entries@.update(i as int, (key, value))) =~= insert_pair(
                    before,
                    k,
                    v,
                ));
                entries.set(i, (key, value));
            },
            None => {
                assert(pairs_of(entries@.push((key, value))) =~= insert_pair(before, k, v));
                entries.push((key, value));
            },
        }
        self.entries = entries;
    }

    /// Removes the binding of `key`, if there is one; the other entries keep
    /// their order.
    pub fn remove(&mut self, key: &str)
        ensures
            final(self).pairs() == remove_pair(old(self).pairs(), key@),
            final(self)@ == old(self)@.remove(key@),
    {
        let ghost before = self.pairs();
        let k = String::from_str(key);
        let at = self.position(&k);
        proof {
            lemma_remove_pair(before, key@);
        }
        let mut entries: Vec<(String, V)> = Vec::new();
        core::mem::swap(&mut self.entries, &mut entries);
        match at {
            Some(i) => {
                assert(pairs_of(entries@.remove(i as int)) =~= remove_pair(before, key@));
                let _ = entries.remove(i);
            },
            None => {},
        }
        self.entries = entries;
    }
}

impl Dict<String> {
    /// A copy with the same entries in the same order.
    pub fn duplicate(&self) -> (out: Self)
        ensures
            out.pairs() == self.pairs(),
            out@ == self@,
    {
        let mut out: Dict<String> = Dict::new();
        let n = self.len();
        let mut i: usize = 0;
        assert(out.pairs() =~= self.pairs().take(0));
        while i < n
            invariant
                i <= n,
                n == self.pairs().len(),
                distinct_pairs(self.pairs()),
                out.pairs() == self.pairs().take(i as int),
            decreases n - i,
        {
            let k = self.key_at(i).clone();
            let v = self.value_at(i).clone();
            proof {
                let p = self.pairs().take(i as int);
                if has_pair(p, k@) {
                    let j = pair_index(p, k@);
                    assert(pair_at(p, k@, j));
                    assert(self.pairs()[j].0 != self.pairs()[i as int].0);
                }
                assert(p.push((k@, v@)) =~= self.pairs().take(i + 1));
            }
            out.insert(k, v);
            i += 1;
        }
        assert(self.pairs().take(n as int) =~= self.pairs());
        out
    }
}

} // verus!
