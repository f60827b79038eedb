//! Finite maps used for the persisted contract state: string-keyed
//! (accounts, tokens) and integer-keyed (storage packages, mint requests).
//!
//! Each map is an association vector whose keys are pairwise distinct; its
//! view is the mathematical `Map` it denotes, so every contract over the
//! state can be written in terms of `Map` operations.
use vstd::prelude::*;
use vstd::seq_lib::*;
use vstd::set::axiom_set_insert_len;

verus! {

/// The map denoted by an association sequence: later entries win, though
/// with distinct keys the order never matters.
pub open spec fn assoc_view<V: DeepView>(s: Seq<(String, V)>) -> Map<Seq<char>, V::V>
    decreases s.len(),
{
    if s.len() == 0 {
        Map::empty()
    } else {
        assoc_view(s.drop_last()).insert(s.last().0@, s.last().1.deep_view())
    }
}

/// No two entries share a key.
pub open spec fn distinct_keys<V>(s: Seq<(String, V)>) -> bool {
    forall|i: int, j: int| 0 <= i < j < s.len() ==> s[i].0@ != s[j].0@
}

proof fn lemma_assoc_contains<V: DeepView>(s: Seq<(String, V)>, k: Seq<char>)
    ensures
        assoc_view(s).contains_key(k) <==> exists|i: int| 0 <= i < s.len() && s[i].0@ == k,
    decreases s.len(),
{
    if s.len() > 0 {
        lemma_assoc_contains(s.drop_last(), k);
        if s.last().0@ != k {
            if assoc_view(s).contains_key(k) {
                let i = choose|i: int| 0 <= i < s.drop_last().len() && s.drop_last()[i].0@ == k;
                assert(s[i].0@ == k);
            }
            if exists|i: int| 0 <= i < s.len() && s[i].0@ == k {
                let i = choose|i: int| 0 <= i < s.len() && s[i].0@ == k;
                assert(i < s.len() - 1);
                assert(s.drop_last()[i].0@ == k);
            }
        } else {
            assert(s[s.len() - 1].0@ == k);
        }
    }
}

proof fn lemma_assoc_get<V: DeepView>(s: Seq<(String, V)>, i: int)
    requires
        distinct_keys(s),
        0 <= i < s.len(),
    ensures
        assoc_view(s).contains_key(s[i].0@),
        assoc_view(s)[s[i].0@] == s[i].1.deep_view(),
    decreases s.len(),
{
    if i < s.len() - 1 {
        assert(s.drop_last()[i] == s[i]);
        lemma_assoc_get(s.drop_last(), i);
        assert(s.last().0@ != s[i].0@);
    }
}

proof fn lemma_assoc_push<V: DeepView>(s: Seq<(String, V)>, p: (String, V))
    ensures
        assoc_view(s.push(p)) == assoc_view(s).insert(p.0@, p.1.deep_view()),
{
    assert(s.push(p).drop_last() =~= s);
    assert(s.push(p).last() == p);
}

proof fn lemma_assoc_remove_at<V: DeepView>(s: Seq<(String, V)>, i: int)
    requires
        distinct_keys(s),
        0 <= i < s.len(),
    ensures
        distinct_keys(s.remove(i)),
        assoc_view(s.remove(i)) =~= assoc_view(s).remove(s[i].0@),
{
    s.remove_ensures(i);
    let t = s.remove(i);
    assert forall|p: int, q: int| 0 <= p < q < t.len() implies t[p].0@ != t[q].0@ by {
        let p2: int = if p < i { p } else { p + 1 };
        let q2: int = if q < i { q } else { q + 1 };
        assert(t[p] == s[p2]);
        assert(t[q] == s[q2]);
    }
    let k = s[i].0@;
    assert forall|x: Seq<char>| #[trigger] assoc_view(t).contains_key(x) implies assoc_view(
        s,
    ).remove(k).contains_key(x) && assoc_view(t)[x] == assoc_view(s).remove(k)[x] by {
        lemma_assoc_contains::<V>(t, x);
        let j = choose|j: int| 0 <= j < t.len() && t[j].0@ == x;
        let j2: int = if j < i { j } else { j + 1 };
        assert(t[j] == s[j2]);
        assert(x != k);
        lemma_assoc_get::<V>(t, j);
        lemma_assoc_get::<V>(s, j2);
    }
    assert forall|x: Seq<char>| #[trigger] assoc_view(s).remove(k).contains_key(x) implies
        assoc_view(t).contains_key(x) by {
        lemma_assoc_contains::<V>(s, x);
        let j = choose|j: int| 0 <= j < s.len() && s[j].0@ == x;
        assert(j != i);
        let j2: int = if j < i { j } else { j - 1 };
        assert(t[j2] == s[j]);
        lemma_assoc_contains::<V>(t, x);
    }
}

proof fn lemma_assoc_dom_len<V: DeepView>(s: Seq<(String, V)>)
    requires
        distinct_keys(s),
    ensures
        assoc_view(s).dom().finite(),
        assoc_view(s).dom().len() == s.len(),
    decreases s.len(),
{
    if s.len() == 0 {
        assert(assoc_view(s).dom() =~= Set::<Seq<char>>::empty());
    } else {
        let t = s.drop_last();
        lemma_assoc_dom_len(t);
        let k = s.last().0@;
        lemma_assoc_contains::<V>(t, k);
        assert(forall|i: int| 0 <= i < t.len() ==> t[i] == s[i]);
        assert(!assoc_view(t).contains_key(k));
        assert(assoc_view(s).dom() =~= assoc_view(t).dom().insert(k));
        axiom_set_insert_len(assoc_view(t).dom(), k);
    }
}

/// A finite map from strings to values, stored as an association vector
/// with pairwise-distinct keys.
pub struct StrMap<V> {
    pairs: Vec<(String, V)>,
}

impl<V: DeepView> View for StrMap<V> {
    type V = Map<Seq<char>, V::V>;

    closed spec fn view(&self) -> Map<Seq<char>, V::V> {
        assoc_view(self.pairs@)
    }
}

impl<V: DeepView> StrMap<V> {
    /// The keys stored are pairwise distinct.
    pub closed spec fn wf(self) -> bool {
        distinct_keys(self.pairs@)
    }

    pub fn new() -> (r: Self)
        ensures
            r@ == Map::<Seq<char>, V::V>::empty(),
            r.wf(),
    {
        StrMap { pairs: Vec::new() }
    }

    fn index_of(&self, key: &String) -> (r: Option<usize>)
        ensures
            match r {
                Some(i) => i < self.pairs@.len() && self.pairs@[i as int].0@ == key@,
                None => forall|j: int| 0 <= j < self.pairs@.len() ==> self.pairs@[j].0@ != key@,
            },
    {
        let n = self.pairs.len();
        let mut i: usize = 0;
        while i < n
            invariant
                n == self.pairs@.len(),
                i <= n,
                forall|j: int| 0 <= j < i ==> self.pairs@[j].0@ != key@,
            decreases n - i,
        {
            if self.pairs[i].0 == *key {
                return Some(i);
            }
            i = i + 1;
        }
        None
    }

    pub fn contains_key(&self, key: &String) -> (r: bool)
        requires
            self.wf(),
        ensures
            r == self@.contains_key(key@),
    {
        proof {
            lemma_assoc_contains::<V>(self.pairs@, key@);
        }
        self.index_of(key).is_some()
    }

    pub fn get<'a>(&'a self, key: &String) -> (r: Option<&'a V>)
        requires
            self.wf(),
        ensures
            match r {
                Some(v) => self@.contains_key(key@) && v.deep_view() == self@[key@],
                None => !self@.contains_key(key@),
            },
    {
        proof {
            lemma_assoc_contains::<V>(self.pairs@, key@);
        }
        match self.index_of(key) {
            Some(i) => {
                proof {
                    lemma_assoc_get::<V>(self.pairs@, i as int);
                }
                Some(&self.pairs[i].1)
            },
            None => None,
        }
    }

    pub fn insert(&mut self, key: String, value: V)
        requires
            old(self).wf(),
        ensures
            final(self)@ == old(self)@.insert(key@, value.deep_view()),
            final(self).wf(),
    {
        let ghost s0 = self.pairs@;
        match self.index_of(&key) {
            Some(i) => {
                proof {
                    lemma_assoc_remove_at::<V>(s0, i as int);
                }
                self.pairs.remove(i);
                let ghost s1 = self.pairs@;
                proof {
                    lemma_assoc_push::<V>(s1, (key, value));
                    lemma_assoc_contains::<V>(s1, key@);
                }
                self.pairs.push((key, value));
                proof {
                    assert(assoc_view(self.pairs@) =~= assoc_view(s0).insert(key@, value.deep_view()));
                }
            },
            None => {
                proof {
                    lemma_assoc_push::<V>(s0, (key, value));
                }
                self.pairs.push((key, value));
            },
        }
    }

    pub fn remove(&mut self, key: &String)
        requires
            old(self).wf(),
        ensures
            final(self)@ == old(self)@.remove(key@),
            final(self).wf(),
    {
        let ghost s0 = self.pairs@;
        match self.index_of(key) {
            Some(i) => {
                proof {
                    lemma_assoc_remove_at::<V>(s0, i as int);
                }
                self.pairs.remove(i);
            },
            None => {
                proof {
                    lemma_assoc_contains::<V>(s0, key@);
                    assert(assoc_view(s0) =~= assoc_view(s0).remove(key@));
                }
            },
        }
    }
}

/// The keys of `m` that hold the value `v`.
pub open spec fn keys_with_value(m: Map<Seq<char>, Seq<char>>, v: Seq<char>) -> Set<Seq<char>> {
    m.dom().filter(|k: Seq<char>| m[k] == v)
}

impl StrMap<String> {
    /// How many keys hold the value `value`; counts, for the ownership
    /// registry, the tokens an account owns.
    pub fn count_values(&self, value: &String) -> (r: u64)
        requires
            self.wf(),
        ensures
            keys_with_value(self@, value@).finite(),
            r == keys_with_value(self@, value@).len(),
    {
        let n = self.pairs.len();
        let mut cnt: u64 = 0;
        let mut i: usize = 0;
        proof {
            assert(self.pairs@.subrange(0, 0) =~= Seq::<(String, String)>::empty());
            assert(assoc_view(self.pairs@.subrange(0, 0)).dom() =~= Set::<Seq<char>>::empty());
            assert(keys_with_value(assoc_view(self.pairs@.subrange(0, 0)), value@) =~= Set::<
                Seq<char>,
            >::empty());
        }
        while i < n
            invariant
                n == self.pairs@.len(),
                i <= n,
                cnt <= i,
                distinct_keys(self.pairs@),
                keys_with_value(assoc_view(self.pairs@.subrange(0, i as int)), value@).finite(),
                cnt == keys_with_value(assoc_view(self.pairs@.subrange(0, i as int)), value@).len(),
            decreases n - i,
        {
            let ghost pre = self.pairs@.subrange(0, i as int);
            let ghost pre1 = self.pairs@.subrange(0, i as int + 1);
            let ghost k = self.pairs@[i as int].0@;
            let ghost v = self.pairs@[i as int].1@;
            proof {
                assert(pre1.drop_last() =~= pre);
                assert(assoc_view(pre1) == assoc_view(pre).insert(k, v));
                assert(forall|j: int| 0 <= j < pre.len() ==> pre[j] == self.pairs@[j]);
                lemma_assoc_contains::<String>(pre, k);
                assert(!assoc_view(pre).contains_key(k));
                if v == value@ {
                    assert(keys_with_value(assoc_view(pre1), value@) =~= keys_with_value(
                        assoc_view(pre),
                        value@,
                    ).insert(k));
                    axiom_set_insert_len(keys_with_value(assoc_view(pre), value@), k);
                } else {
                    assert(keys_with_value(assoc_view(pre1), value@) =~= keys_with_value(
                        assoc_view(pre),
                        value@,
                    ));
                }
            }
            if self.pairs[i].1 == *value {
                cnt = cnt + 1;
            }
            i = i + 1;
        }
        proof {
            assert(self.pairs@.subrange(0, n as int) =~= self.pairs@);
        }
        cnt
    }
}

/// The map denoted by an integer-keyed association sequence.
pub open spec fn id_assoc_view<V: DeepView>(s: Seq<(u64, V)>) -> Map<u64, V::V>
    decreases s.len(),
{
    if s.len() == 0 {
        Map::empty()
    } else {
        id_assoc_view(s.drop_last()).insert(s.last().0, s.last().1.deep_view())
    }
}

/// No two entries share a key.
pub open spec fn id_distinct_keys<V>(s: Seq<(u64, V)>) -> bool {
    forall|i: int, j: int| 0 <= i < j < s.len() ==> s[i].0 != s[j].0
}

proof fn lemma_id_assoc_contains<V: DeepView>(s: Seq<(u64, V)>, k: u64)
    ensures
        id_assoc_view(s).contains_key(k) <==> exists|i: int| 0 <= i < s.len() && s[i].0 == k,
    decreases s.len(),
{
    if s.len() > 0 {
        lemma_id_assoc_contains(s.drop_last(), k);
        if s.last().0 != k {
            if id_assoc_view(s).contains_key(k) {
                let i = choose|i: int| 0 <= i < s.drop_last().len() && s.drop_last()[i].0 == k;
                assert(s[i].0 == k);
            }
            if exists|i: int| 0 <= i < s.len() && s[i].0 == k {
                let i = choose|i: int| 0 <= i < s.len() && s[i].0 == k;
                assert(i < s.len() - 1);
                assert(s.drop_last()[i].0 == k);
            }
        } else {
            assert(s[s.len() - 1].0 == k);
        }
    }
}

proof fn lemma_id_assoc_get<V: DeepView>(s: Seq<(u64, V)>, i: int)
    requires
        id_distinct_keys(s),
        0 <= i < s.len(),
    ensures
        id_assoc_view(s).contains_key(s[i].0),
        id_assoc_view(s)[s[i].0] == s[i].1.deep_view(),
    decreases s.len(),
{
    if i < s.len() - 1 {
        assert(s.drop_last()[i] == s[i]);
        lemma_id_assoc_get(s.drop_last(), i);
        assert(s.last().0 != s[i].0);
    }
}

proof fn lemma_id_assoc_push<V: DeepView>(s: Seq<(u64, V)>, p: (u64, V))
    ensures
        id_assoc_view(s.push(p)) == id_assoc_view(s).insert(p.0, p.1.deep_view()),
{
    assert(s.push(p).drop_last() =~= s);
    assert(s.push(p).last() == p);
}

proof fn lemma_id_assoc_remove_at<V: DeepView>(s: Seq<(u64, V)>, i: int)
    requires
        id_distinct_keys(s),
        0 <= i < s.len(),
    ensures
        id_distinct_keys(s.remove(i)),
        id_assoc_view(s.remove(i)) =~= id_assoc_view(s).remove(s[i].0),
{
    s.remove_ensures(i);
    let t = s.remove(i);
    assert forall|p: int, q: int| 0 <= p < q < t.len() implies t[p].0 != t[q].0 by {
        let p2: int = if p < i { p } else { p + 1 };
        let q2: int = if q < i { q } else { q + 1 };
        assert(t[p] == s[p2]);
        assert(t[q] == s[q2]);
    }
    let k = s[i].0;
    assert forall|x: u64| #[trigger] id_assoc_view(t).contains_key(x) implies id_assoc_view(
        s,
    ).remove(k).contains_key(x) && id_assoc_view(t)[x] == id_assoc_view(s).remove(k)[x] by {
        lemma_id_assoc_contains::<V>(t, x);
        let j = choose|j: int| 0 <= j < t.len() && t[j].0 == x;
        let j2: int = if j < i { j } else { j + 1 };
        assert(t[j] == s[j2]);
        assert(x != k);
        lemma_id_assoc_get::<V>(t, j);
        lemma_id_assoc_get::<V>(s, j2);
    }
    assert forall|x: u64| #[trigger] id_assoc_view(s).remove(k).contains_key(x) implies
        id_assoc_view(t).contains_key(x) by {
        lemma_id_assoc_contains::<V>(s, x);
        let j = choose|j: int| 0 <= j < s.len() && s[j].0 == x;
        assert(j != i);
        let j2: int = if j < i { j } else { j - 1 };
        assert(t[j2] == s[j]);
        lemma_id_assoc_contains::<V>(t, x);
    }
}

proof fn lemma_id_assoc_dom_len<V: DeepView>(s: Seq<(u64, V)>)
    requires
        id_distinct_keys(s),
    ensures
        id_assoc_view(s).dom().finite(),
        id_assoc_view(s).dom().len() == s.len(),
    decreases s.len(),
{
    if s.len() == 0 {
        assert(id_assoc_view(s).dom() =~= Set::<u64>::empty());
    } else {
        let t = s.drop_last();
        lemma_id_assoc_dom_len(t);
        let k = s.last().0;
        lemma_id_assoc_contains::<V>(t, k);
        assert(forall|i: int| 0 <= i < t.len() ==> t[i] == s[i]);
        assert(!id_assoc_view(t).contains_key(k));
        assert(id_assoc_view(s).dom() =~= id_assoc_view(t).dom().insert(k));
        axiom_set_insert_len(id_assoc_view(t).dom(), k);
    }
}

/// A finite map from `u64` identifiers to values, stored as an association
/// vector with pairwise-distinct keys.
pub struct IdMap<V> {
    pairs: Vec<(u64, V)>,
}

impl<V: DeepView> View for IdMap<V> {
    type V = Map<u64, V::V>;

    closed spec fn view(&self) -> Map<u64, V::V> {
        id_assoc_view(self.pairs@)
    }
}

impl<V: DeepView> IdMap<V> {
    /// The keys stored are pairwise distinct.
    pub closed spec fn wf(self) -> bool {
        id_distinct_keys(self.pairs@)
    }

    pub fn new() -> (r: Self)
        ensures
            r@ == Map::<u64, V::V>::empty(),
            r.wf(),
    {
        IdMap { pairs: Vec::new() }
    }

    fn index_of(&self, key: u64) -> (r: Option<usize>)
        ensures
            match r {
                Some(i) => i < self.pairs@.len() && self.pairs@[i as int].0 == key,
                None => forall|j: int| 0 <= j < self.pairs@.len() ==> self.pairs@[j].0 != key,
            },
    {
        let n = self.pairs.len();
        let mut i: usize = 0;
        while i < n
            invariant
                n == self.pairs@.len(),
                i <= n,
                forall|j: int| 0 <= j < i ==> self.pairs@[j].0 != key,
            decreases n - i,
        {
            if self.pairs[i].0 == key {
                return Some(i);
            }
            i = i + 1;
        }
        None
    }

    /// How many entries the map holds.
    pub fn len(&self) -> (r: usize)
        requires
            self.wf(),
        ensures
            self@.dom().finite(),
            r == self@.dom().len(),
    {
        proof {
            lemma_id_assoc_dom_len::<V>(self.pairs@);
        }
        self.pairs.len()
    }

    pub fn contains_key(&self, key: u64) -> (r: bool)
        requires
            self.wf(),
        ensures
            r == self@.contains_key(key),
    {
        proof {
            lemma_id_assoc_contains::<V>(self.pairs@, key);
        }
        self.index_of(key).is_some()
    }

    pub fn get<'a>(&'a self, key: u64) -> (r: Option<&'a V>)
        requires
            self.wf(),
        ensures
            match r {
                Some(v) => self@.contains_key(key) && v.deep_view() == self@[key],
                None => !self@.contains_key(key),
            },
    {
        proof {
            lemma_id_assoc_contains::<V>(self.pairs@, key);
        }
        match self.index_of(key) {
            Some(i) => {
                proof {
                    lemma_id_assoc_get::<V>(self.pairs@, i as int);
                }
                Some(&self.pairs[i].1)
            },
            None => None,
        }
    }

    pub fn insert(&mut self, key: u64, value: V)
        requires
            old(self).wf(),
        ensures
            final(self)@ == old(self)@.insert(key, value.deep_view()),
            final(self).wf(),
    {
        let ghost s0 = self.pairs@;
        match self.index_of(key) {
            Some(i) => {
                proof {
                    lemma_id_assoc_remove_at::<V>(s0, i as int);
                }
                self.pairs.remove(i);
                let ghost s1 = self.pairs@;
                proof {
                    lemma_id_assoc_push::<V>(s1, (key, value));
                    lemma_id_assoc_contains::<V>(s1, key);
                }
                self.pairs.push((key, value));
                proof {
                    assert(id_assoc_view(self.pairs@) =~= id_assoc_view(s0).insert(key, value.deep_view()));
                }
            },
            None => {
                proof {
                    lemma_id_assoc_push::<V>(s0, (key, value));
                }
                self.pairs.push((key, value));
            },
        }
    }

    pub fn remove(&mut self, key: u64)
        requires
            old(self).wf(),
        ensures
            final(self)@ == old(self)@.remove(key),
            final(self).wf(),
    {
        let ghost s0 = self.pairs@;
        match self.index_of(key) {
            Some(i) => {
                proof {
                    lemma_id_assoc_remove_at::<V>(s0, i as int);
                }
                self.pairs.remove(i);
            },
            None => {
                proof {
                    lemma_id_assoc_contains::<V>(s0, key);
                    assert(id_assoc_view(s0) =~= id_assoc_view(s0).remove(key));
                }
            },
        }
    }
}

impl<V: DeepView + Copy> IdMap<V> {
    /// The entries of the map, in storage order: every listed pair is in the
    /// map, the listed keys are pairwise distinct, and every key of the map
    /// is listed.
    pub fn entries(&self) -> (r: Vec<(u64, V)>)
        requires
            self.wf(),
        ensures
            forall|j: int|
                0 <= j < r@.len() ==> self@.contains_key(#[trigger] r@[j].0) && self@[r@[j].0]
                    == r@[j].1.deep_view(),
            forall|i: int, j: int| 0 <= i < j < r@.len() ==> r@[i].0 != r@[j].0,
            forall|k: u64| self@.contains_key(k) ==> exists|j: int| 0 <= j < r@.len() && r@[j].0 == k,
    {
        let n = self.pairs.len();
        let mut out: Vec<(u64, V)> = Vec::new();
        let mut i: usize = 0;
        while i < n
            invariant
                n == self.pairs@.len(),
                i <= n,
                out@.len() == i,
                forall|j: int| 0 <= j < i ==> out@[j] == self.pairs@[j],
            decreases n - i,
        {
            out.push((self.pairs[i].0, self.pairs[i].1));
            i = i + 1;
        }
        proof {
            assert(out@ =~= self.pairs@);
            assert forall|j: int| 0 <= j < out@.len() implies self@.contains_key(
                #[trigger] out@[j].0,
            ) && self@[out@[j].0] == out@[j].1.deep_view() by {
                lemma_id_assoc_get::<V>(self.pairs@, j);
            }
            assert forall|k: u64| self@.contains_key(k) implies exists|j: int|
                0 <= j < out@.len() && out@[j].0 == k by {
                lemma_id_assoc_contains::<V>(self.pairs@, k);
            }
        }
        out
    }
}

impl<V: DeepView + Copy> StrMap<V> {
    /// A fresh map holding the same entries; used to stage a fallible group
    /// of updates before committing them.
    pub fn duplicate(&self) -> (r: Self)
        requires
            self.wf(),
        ensures
            r@ == self@,
            r.wf(),
    {
        let n = self.pairs.len();
        let mut out: Vec<(String, V)> = Vec::new();
        let mut i: usize = 0;
        while i < n
            invariant
                n == self.pairs@.len(),
                i <= n,
                out@.len() == i,
                forall|j: int| 0 <= j < i ==> out@[j] == self.pairs@[j],
            decreases n - i,
        {
            let k = self.pairs[i].0.clone();
            let v = self.pairs[i].1;
            out.push((k, v));
            i = i + 1;
        }
        proof {
            assert(out@ =~= self.pairs@);
        }
        StrMap { pairs: out }
    }
}

} // verus!
