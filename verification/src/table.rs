//! A small association table: each key appears at most once, and the table is
//! viewed as a finite map from the keys' views to the values' views.
use vstd::prelude::*;

verus! {

/// Values that a table can hold as keys or values: they can be compared by
/// their views and copied with the same view.
pub trait Keyed: View + Sized {
    fn same_as(&self, other: &Self) -> (r: bool)
        ensures
            r == (self@ == other@),
    ;

    fn duplicate(&self) -> (r: Self)
        ensures
            r@ == self@,
    ;
}

impl Keyed for String {
    fn same_as(&self, other: &Self) -> (r: bool) {
        *self == *other
    }

    fn duplicate(&self) -> (r: Self) {
        self.clone()
    }
}

impl Keyed for u64 {
    fn same_as(&self, other: &Self) -> (r: bool) {
        *self == *other
    }

    fn duplicate(&self) -> (r: Self) {
        *self
    }
}

impl Keyed for i8 {
    fn same_as(&self, other: &Self) -> (r: bool) {
        *self == *other
    }

    fn duplicate(&self) -> (r: Self) {
        *self
    }
}

/// An association list with unique keys.
pub struct Table<K: Keyed, V: Keyed> {
    entries: Vec<(K, V)>,
}

/// Some position of `s` holds the key `k`.
pub open spec fn holds_key<K: View, V>(s: Seq<(K, V)>, k: K::V) -> bool {
    exists|i: int| 0 <= i < s.len() && #[trigger] s[i].0@ == k
}

/// No two positions of `s` hold the same key.
pub open spec fn keys_unique<K: View, V>(s: Seq<(K, V)>) -> bool {
    forall|i: int, j: int|
        0 <= i < s.len() && 0 <= j < s.len() && i != j ==> #[trigger] s[i].0@ != #[trigger] s[j].0@
}

/// The map that a sequence of pairs with unique keys stands for.
pub open spec fn pairs_map<K: View, V: View>(s: Seq<(K, V)>) -> Map<K::V, V::V> {
    Map::new(
        |k: K::V| holds_key(s, k),
        |k: K::V| s[choose|i: int| 0 <= i < s.len() && #[trigger] s[i].0@ == k].1@,
    )
}

/// Where keys are unique, the position of a key determines its value in the map.
pub proof fn lemma_pairs_map_at<K: View, V: View>(s: Seq<(K, V)>, i: int)
    requires
        keys_unique(s),
        0 <= i < s.len(),
    ensures
        pairs_map(s).contains_key(s[i].0@),
        pairs_map(s)[s[i].0@] == s[i].1@,
{
    let k = s[i].0@;
    assert(holds_key(s, k));
    let j = choose|j: int| 0 <= j < s.len() && #[trigger] s[j].0@ == k;
    assert(s[j].0@ == k);
    assert(i == j);
}

impl<K: Keyed, V: Keyed> View for Table<K, V> {
    type V = Map<K::V, V::V>;

    closed spec fn view(&self) -> Map<K::V, V::V> {
        pairs_map(self.entries@)
    }
}

impl<K: Keyed, V: Keyed> Table<K, V> {
    #[verifier::type_invariant]
    closed spec fn unique_keys(self) -> bool {
        keys_unique(self.entries@)
    }

    /// An empty table.
    pub fn new() -> (t: Self)
        ensures
            t@ == Map::<K::V, V::V>::empty(),
    {
        let t = Table { entries: Vec::new() };
        assert(t@ =~= Map::<K::V, V::V>::empty());
        t
    }

    /// The position of key `k`, if it is there.
    fn position(&self, k: &K) -> (r: Option<usize>)
        ensures
            match r {
                Some(i) => i < self.entries@.len() && self.entries@[i as int].0@ == k@,
                None => !holds_key(self.entries@, k@),
            },
    {
        let n = self.entries.len();
        let mut i: usize = 0;
        while i < n
            invariant
                n == self.entries@.len(),
                i <= n,
                forall|j: int| 0 <= j < i ==> self.entries@[j].0@ != k@,
            decreases n - i,
        {
            if self.entries[i].0.same_as(k) {
                return Some(i);
            }
            i = i + 1;
        }
        None
    }

    /// Whether key `k` is in the table.
    pub fn contains(&self, k: &K) -> (r: bool)
        ensures
            r == self@.contains_key(k@),
    {
        match self.position(k) {
            Some(i) => {
                proof {
                    use_type_invariant(self);
                    lemma_pairs_map_at(self.entries@, i as int);
                }
                true
            },
            None => false,
        }
    }

    /// A copy of the value under key `k`, if there is one.
    pub fn get(&self, k: &K) -> (r: Option<V>)
        ensures
            match r {
                Some(v) => self@.contains_key(k@) && v@ == self@[k@],
                None => !self@.contains_key(k@),
            },
    {
        match self.position(k) {
            Some(i) => {
                proof {
                    use_type_invariant(self);
                    lemma_pairs_map_at(self.entries@, i as int);
                }
                Some(self.entries[i].1.duplicate())
            },
            None => None,
        }
    }

    /// Sets the value under key `k` to `v`, adding the key where it is new.
    pub fn insert(&mut self, k: K, v: V)
        ensures
            final(self)@ == old(self)@.insert(k@, v@),
    {
        proof {
            use_type_invariant(&*self);
        }
        let ghost old_entries = self.entries@;
        let pos = self.position(&k);
        let mut entries: Vec<(K, V)> = Vec::new();
        std::mem::swap(&mut entries, &mut self.entries);
        let ghost kv = k@;
        let ghost vv = v@;
        match pos {
            Some(i) => {
                entries.set(i, (k, v));
                proof {
                    let s = entries@;
                    assert(keys_unique(s));
                    assert forall|key: K::V|
                        #![auto]
                        pairs_map(s).contains_key(key) == pairs_map(old_entries).insert(
                            kv,
                            vv,
                        ).contains_key(key) by {
                        if holds_key(old_entries, key) {
                            let j = choose|j: int|
                                0 <= j < old_entries.len() && #[trigger] old_entries[j].0@ == key;
                            assert(s[j].0@ == key);
                        }
                        if holds_key(s, key) {
                            let j = choose|j: int| 0 <= j < s.len() && #[trigger] s[j].0@ == key;
                            if j != i {
                                assert(old_entries[j].0@ == key);
                            }
                        }
                    }
                    assert forall|key: K::V| #[trigger]
                        pairs_map(s).contains_key(key) implies pairs_map(s)[key]
                        == pairs_map(old_entries).insert(kv, vv)[key] by {
                        let j = choose|j: int| 0 <= j < s.len() && #[trigger] s[j].0@ == key;
                        lemma_pairs_map_at(s, j);
                        if j != i {
                            lemma_pairs_map_at(old_entries, j);
                        }
                    }
                    assert(pairs_map(s) =~= pairs_map(old_entries).insert(kv, vv));
                }
            },
            None => {
                entries.push((k, v));
                proof {
                    let s = entries@;
                    let n = old_entries.len() as int;
                    assert(s[n].0@ == kv);
                    assert forall|a: int, b: int|
                        0 <= a < s.len() && 0 <= b < s.len() && a != b implies #[trigger] s[a].0@
                        != #[trigger] s[b].0@ by {
                        if a != n && b != n {
                            assert(old_entries[a] == s[a]);
                            assert(old_entries[b] == s[b]);
                        } else if a == n {
                            assert(old_entries[b] == s[b]);
                        } else {
                            assert(old_entries[a] == s[a]);
                        }
                    }
                    assert forall|key: K::V|
                        #![auto]
                        pairs_map(s).contains_key(key) == pairs_map(old_entries).insert(
                            kv,
                            vv,
                        ).contains_key(key) by {
                        if holds_key(old_entries, key) {
                            let j = choose|j: int|
                                0 <= j < old_entries.len() && #[trigger] old_entries[j].0@ == key;
                            assert(s[j].0@ == key);
                        }
                        if holds_key(s, key) {
                            let j = choose|j: int| 0 <= j < s.len() && #[trigger] s[j].0@ == key;
                            if j != n {
                                assert(old_entries[j].0@ == key);
                            }
                        }
                    }
                    assert forall|key: K::V| #[trigger]
                        pairs_map(s).contains_key(key) implies pairs_map(s)[key]
                        == pairs_map(old_entries).insert(kv, vv)[key] by {
                        let j = choose|j: int| 0 <= j < s.len() && #[trigger] s[j].0@ == key;
                        lemma_pairs_map_at(s, j);
                        if j != n {
                            assert(old_entries[j] == s[j]);
                            lemma_pairs_map_at(old_entries, j);
                        }
                    }
                    assert(pairs_map(s) =~= pairs_map(old_entries).insert(kv, vv));
                }
            },
        }
        self.entries = entries;
    }

    /// A key whose value is `v`, if any key has that value. Where several
    /// keys do, the one nearest the end of the table is returned.
    pub fn key_with_value(&self, v: &V) -> (r: Option<K>)
        ensures
            match r {
                Some(k) => self@.contains_key(k@) && self@[k@] == v@,
                None => forall|k: K::V| #[trigger] self@.contains_key(k) ==> self@[k] != v@,
            },
    {
        proof {
            use_type_invariant(self);
        }
        let n = self.entries.len();
        let mut i: usize = 0;
        let mut found: Option<usize> = None;
        while i < n
            invariant
                n == self.entries@.len(),
                i <= n,
                match found {
                    Some(j) => j < i && self.entries@[j as int].1@ == v@,
                    None => forall|j: int| 0 <= j < i ==> self.entries@[j].1@ != v@,
                },
            decreases n - i,
        {
            if self.entries[i].1.same_as(v) {
                found = Some(i);
            }
            i = i + 1;
        }
        match found {
            Some(j) => {
                proof {
                    lemma_pairs_map_at(self.entries@, j as int);
                }
                Some(self.entries[j].0.duplicate())
            },
            None => {
                proof {
                    assert forall|k: K::V| #[trigger]
                        self@.contains_key(k) implies self@[k] != v@ by {
                        let j = choose|j: int|
                            0 <= j < self.entries@.len() && #[trigger] self.entries@[j].0@ == k;
                        lemma_pairs_map_at(self.entries@, j);
                    }
                }
                None
            },
        }
    }
}

} // verus!
