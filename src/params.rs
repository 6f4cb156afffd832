use vstd::prelude::*;

verus! {

/// A name/value pair of a query, as text.
pub type Pair = (Seq<char>, Seq<char>);

/// The names of a sequence of pairs are pairwise distinct.
pub open spec fn keys_distinct(s: Seq<Pair>) -> bool {
    forall|i: int, j: int|
        0 <= i < s.len() && 0 <= j < s.len() && (#[trigger] s[i]).0 == (#[trigger] s[j]).0
            ==> i == j
}

/// The name `k` is the name of some pair of `s`.
pub open spec fn has_key(s: Seq<Pair>, k: Seq<char>) -> bool {
    exists|i: int| 0 <= i < s.len() && (#[trigger] s[i]).0 == k
}

/// The map from names to values that a sequence of pairs with distinct names stands for.
pub open spec fn pairs_map(s: Seq<Pair>) -> Map<Seq<char>, Seq<char>> {
    Map::new(
        |k: Seq<char>| has_key(s, k),
        |k: Seq<char>| s[choose|i: int| 0 <= i < s.len() && (#[trigger] s[i]).0 == k].1,
    )
}

/// Setting name `k` to `v`: the pair that holds `k` gets the new value in
/// place; without one, the pair goes last.
pub open spec fn set_param(s: Seq<Pair>, k: Seq<char>, v: Seq<char>) -> Seq<Pair> {
    if has_key(s, k) {
        s.update(choose|i: int| 0 <= i < s.len() && (#[trigger] s[i]).0 == k, (k, v))
    } else {
        s.push((k, v))
    }
}

/// In a sequence of pairs with distinct names, the map holds each pair.
pub proof fn lemma_pairs_map_at(s: Seq<Pair>, i: int)
    requires
        keys_distinct(s),
        0 <= i < s.len(),
    ensures
        pairs_map(s).contains_key(s[i].0),
        pairs_map(s)[s[i].0] == s[i].1,
{
    let k = s[i].0;
    assert(has_key(s, k));
    let j = choose|j: int| 0 <= j < s.len() && (#[trigger] s[j]).0 == k;
    assert(s[j].0 == s[i].0);
}

/// Setting a name keeps the names distinct and acts on the map as an insert.
pub proof fn lemma_set_param(s: Seq<Pair>, k: Seq<char>, v: Seq<char>)
    requires
        keys_distinct(s),
    ensures
        keys_distinct(set_param(s, k, v)),
        pairs_map(set_param(s, k, v)) == pairs_map(s).insert(k, v),
{
    let t = set_param(s, k, v);
    if has_key(s, k) {
        let i = choose|i: int| 0 <= i < s.len() && (#[trigger] s[i]).0 == k;
        assert(t == s.update(i, (k, v)));
        assert(keys_distinct(t)) by {
            assert forall|a: int, b: int|
                0 <= a < t.len() && 0 <= b < t.len() && (#[trigger] t[a]).0 == (#[trigger] t[b]).0
                    implies a == b by {
                if a != i && b != i {
                    assert(s[a] == t[a] && s[b] == t[b]);
                } else if a == i && b != i {
                    assert(s[b] == t[b] && s[a].0 == k);
                } else if a != i && b == i {
                    assert(s[a] == t[a] && s[b].0 == k);
                }
            }
        }
        assert forall|kk: Seq<char>| #[trigger] has_key(t, kk) == has_key(s, kk) by {
            if has_key(s, kk) {
                let a = choose|a: int| 0 <= a < s.len() && (#[trigger] s[a]).0 == kk;
                if a == i {
                    assert(t[a].0 == kk);
                } else {
                    assert(t[a] == s[a]);
                }
            }
            if has_key(t, kk) {
                let a = choose|a: int| 0 <= a < t.len() && (#[trigger] t[a]).0 == kk;
                if a == i {
                    assert(s[a].0 == kk);
                } else {
                    assert(t[a] == s[a]);
                }
            }
        }
        assert forall|kk: Seq<char>| #[trigger] pairs_map(t).contains_key(kk) implies pairs_map(
            t,
        )[kk] == pairs_map(s).insert(k, v)[kk] by {
            let a = choose|a: int| 0 <= a < t.len() && (#[trigger] t[a]).0 == kk;
            lemma_pairs_map_at(t, a);
            if a != i {
                assert(t[a] == s[a]);
                lemma_pairs_map_at(s, a);
            }
        }
        assert(pairs_map(t) =~= pairs_map(s).insert(k, v));
    } else {
        let n = s.len() as int;
        assert(t.len() == n + 1 && t[n].0 == k);
        assert forall|j: int| 0 <= j < n implies #[trigger] t[j] == s[j] by {}
        assert(keys_distinct(t)) by {
            assert forall|a: int, b: int|
                0 <= a < t.len() && 0 <= b < t.len() && (#[trigger] t[a]).0 == (#[trigger] t[b]).0
                    implies a == b by {
                if a < n && b < n {
                    assert(s[a] == t[a] && s[b] == t[b]);
                } else if a < n {
                    assert(s[a] == t[a]);
                } else if b < n {
                    assert(s[b] == t[b]);
                }
            }
        }
        assert forall|kk: Seq<char>| #[trigger] has_key(t, kk) == (has_key(s, kk) || kk == k) by {
            if has_key(s, kk) {
                let a = choose|a: int| 0 <= a < s.len() && (#[trigger] s[a]).0 == kk;
                assert(t[a] == s[a]);
            }
            if kk == k {
                assert(t[n].0 == kk);
            }
            if has_key(t, kk) && kk != k {
                let a = choose|a: int| 0 <= a < t.len() && (#[trigger] t[a]).0 == kk;
                assert(t[a] == s[a]);
            }
        }
        lemma_pairs_map_at(t, n);
        assert forall|kk: Seq<char>| #[trigger] pairs_map(t).contains_key(kk) implies pairs_map(
            t,
        )[kk] == pairs_map(s).insert(k, v)[kk] by {
            let a = choose|a: int| 0 <= a < t.len() && (#[trigger] t[a]).0 == kk;
            lemma_pairs_map_at(t, a);
            if a != n {
                assert(t[a] == s[a]);
                lemma_pairs_map_at(s, a);
            }
        }
        assert(pairs_map(t) =~= pairs_map(s).insert(k, v));
    }
}

/// The text of a sequence of string pairs.
pub open spec fn pairs_view(e: Seq<(String, String)>) -> Seq<Pair> {
    e.map_values(|p: (String, String)| (p.0@, p.1@))
}

/// A set of query parameters, in the order their names were first set: each
/// name occurs at most once, and setting a name that is already present
/// replaces its value in place.
#[derive(Debug)]
pub struct Params {
    entries: Vec<(String, String)>,
}

impl View for Params {
    type V = Seq<Pair>;

    closed spec fn view(&self) -> Seq<Pair> {
        pairs_view(self.entries@)
    }
}

impl Params {
    /// Each name is held once.
    pub open spec fn wf(&self) -> bool {
        keys_distinct(self@)
    }

    /// The parameters as a map from names to values.
    pub open spec fn as_map(&self) -> Map<Seq<char>, Seq<char>> {
        pairs_map(self@)
    }

    /// An empty parameter set.
    pub fn new() -> (r: Params)
        ensures
            r.wf(),
            r@ == Seq::<Pair>::empty(),
    {
        let r = Params { entries: Vec::new() };
        assert(r@ =~= Seq::<Pair>::empty());
        r
    }

    /// Sets `key` to `value`, replacing any earlier value of `key`.
    pub fn insert(&mut self, key: String, value: String)
        requires
            old(self).wf(),
        ensures
            final(self).wf(),
            final(self)@ == set_param(old(self)@, key@, value@),
            final(self).as_map() == old(self).as_map().insert(key@, value@),
    {
        let ghost s = self@;
        let ghost k = key@;
        let ghost v = value@;
        proof {
            lemma_set_param(s, k, v);
        }
        let n = self.entries.len();
        let mut i: usize = 0;
        while i < n
            invariant
                n == self.entries.len(),
                self@ == s,
                s == old(self)@,
                keys_distinct(s),
                k == key@,
                v == value@,
                0 <= i <= n,
                forall|j: int| 0 <= j < i ==> (#[trigger] s[j]).0 != k,
            decreases n - i,
        {
            if self.entries[i].0 == key {
                let ghost e0 = self.entries@;
                self.entries[i] = (key, value);
                proof {
                    assert(s[i as int].0 == k);
                    assert(has_key(s, k));
                    let c = choose|c: int| 0 <= c < s.len() && (#[trigger] s[c]).0 == k;
                    assert(s[c].0 == s[i as int].0);
                    assert(self.entries@ == e0.update(i as int, self.entries@[i as int]));
                    assert(self@ =~= s.update(i as int, (k, v)));
                    assert(c == i);
                    lemma_set_param(s, k, v);
                }
                return;
            }
            i = i + 1;
        }
        proof {
            assert(!has_key(s, k));
        }
        self.entries.push((key, value));
        assert(self@ =~= s.push((k, v)));
    }

    /// The value set for `key`, if any.
    pub fn get(&self, key: &String) -> (r: Option<&String>)
        requires
            self.wf(),
        ensures
            match r {
                Some(v) => self.as_map().contains_key(key@) && self.as_map()[key@] == v@,
                None => !self.as_map().contains_key(key@),
            },
    {
        let n = self.entries.len();
        let mut i: usize = 0;
        while i < n
            invariant
                n == self.entries.len(),
                self.wf(),
                0 <= i <= n,
                forall|j: int| 0 <= j < i ==> (#[trigger] self@[j]).0 != key@,
            decreases n - i,
        {
            if self.entries[i].0 == *key {
                proof {
                    lemma_pairs_map_at(self@, i as int);
                }
                return Some(&self.entries[i].1);
            }
            i = i + 1;
        }
        None
    }

    /// The name/value pairs, in order.
    pub fn pairs(&self) -> (r: &Vec<(String, String)>)
        ensures
            pairs_view(r@) == self@,
    {
        &self.entries
    }
}

} // verus!
