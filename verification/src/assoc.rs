//! An association-list map from string keys to values, the verified backing
//! container for both the chunk store and the location registry.
//!
//! Entries are kept in a vector with pairwise-distinct keys, so the sequence
//! of entries denotes a finite map and every operation is specified against
//! that map.

use vstd::prelude::*;

verus! {

/// True when no two entries of `s` carry the same key.
pub(crate) open spec fn keys_distinct<V>(s: Seq<(String, V)>) -> bool {
    forall|i: int, j: int|
        0 <= i < j < s.len() ==> (#[trigger] s[i]).0@ != (#[trigger] s[j]).0@
}

/// The finite map that an entry sequence denotes; a later entry overrides an
/// earlier one with the same key.
pub(crate) open spec fn entries_map<V>(s: Seq<(String, V)>) -> Map<Seq<char>, V>
    decreases s.len(),
{
    if s.len() == 0 {
        Map::empty()
    } else {
        entries_map(s.drop_last()).insert(s.last().0@, s.last().1)
    }
}

proof fn lemma_distinct_drop_last<V>(s: Seq<(String, V)>)
    requires
        keys_distinct(s),
        s.len() > 0,
    ensures
        keys_distinct(s.drop_last()),
{
    assert forall|a: int, b: int|
        0 <= a < b < s.drop_last().len() implies (#[trigger] s.drop_last()[a]).0@ != (
    #[trigger] s.drop_last()[b]).0@ by {
        assert(s.drop_last()[a] == s[a]);
        assert(s.drop_last()[b] == s[b]);
    }
}

/// Every entry's key is in the denoted map.
proof fn lemma_entry_in_map<V>(s: Seq<(String, V)>, i: int)
    requires
        0 <= i < s.len(),
    ensures
        entries_map(s).contains_key(s[i].0@),
    decreases s.len(),
{
    if i < s.len() - 1 {
        lemma_entry_in_map(s.drop_last(), i);
        assert(s.drop_last()[i] == s[i]);
    }
}

/// With distinct keys, each entry's key maps to that entry's value.
proof fn lemma_entry_value<V>(s: Seq<(String, V)>, i: int)
    requires
        keys_distinct(s),
        0 <= i < s.len(),
    ensures
        entries_map(s).contains_key(s[i].0@),
        entries_map(s)[s[i].0@] == s[i].1,
    decreases s.len(),
{
    if i < s.len() - 1 {
        lemma_distinct_drop_last(s);
        lemma_entry_value(s.drop_last(), i);
        assert(s.drop_last()[i] == s[i]);
        assert((s[i]).0@ != (s[s.len() - 1]).0@);
    }
}

/// A key carried by no entry is absent from the denoted map.
proof fn lemma_absent<V>(s: Seq<(String, V)>, k: Seq<char>)
    requires
        forall|j: int| 0 <= j < s.len() ==> (#[trigger] s[j]).0@ != k,
    ensures
        !entries_map(s).contains_key(k),
    decreases s.len(),
{
    if s.len() > 0 {
        assert forall|j: int|
            0 <= j < s.drop_last().len() implies (#[trigger] s.drop_last()[j]).0@ != k by {
            assert(s.drop_last()[j] == s[j]);
        }
        lemma_absent(s.drop_last(), k);
    }
}

/// A key present in the denoted map is carried by some entry.
proof fn lemma_exists_entry<V>(s: Seq<(String, V)>, k: Seq<char>)
    requires
        entries_map(s).contains_key(k),
    ensures
        exists|j: int| 0 <= j < s.len() && (#[trigger] s[j]).0@ == k,
    decreases s.len(),
{
    if s.len() > 0 {
        if s.last().0@ == k {
            assert((s[s.len() - 1]).0@ == k);
        } else {
            lemma_exists_entry(s.drop_last(), k);
            let j = choose|j: int| 0 <= j < s.drop_last().len() && (#[trigger] s.drop_last()[j]).0@ == k;
            assert(s.drop_last()[j] == s[j]);
        }
    }
}

/// Appending an entry denotes insertion into the map.
proof fn lemma_push<V>(s: Seq<(String, V)>, p: (String, V))
    ensures
        entries_map(s.push(p)) == entries_map(s).insert(p.0@, p.1),
{
    assert(s.push(p).drop_last() =~= s);
    assert(s.push(p).last() == p);
}

/// Appending an entry with a fresh key keeps the keys distinct.
proof fn lemma_distinct_push_fresh<V>(s: Seq<(String, V)>, p: (String, V))
    requires
        keys_distinct(s),
        forall|j: int| 0 <= j < s.len() ==> (#[trigger] s[j]).0@ != p.0@,
    ensures
        keys_distinct(s.push(p)),
{
    assert forall|a: int, b: int|
        0 <= a < b < s.push(p).len() implies (#[trigger] s.push(p)[a]).0@ != (
    #[trigger] s.push(p)[b]).0@ by {
        assert(s.push(p)[a] == s[a]);
        if b == s.len() {
            assert(s.push(p)[b] == p);
        } else {
            assert(s.push(p)[b] == s[b]);
        }
    }
}

/// Removing the one entry that carries a key denotes removal from the map,
/// keeps the keys distinct, and leaves no entry with that key behind.
proof fn lemma_remove<V>(s: Seq<(String, V)>, i: int)
    requires
        keys_distinct(s),
        0 <= i < s.len(),
    ensures
        keys_distinct(s.remove(i)),
        forall|j: int| 0 <= j < s.remove(i).len() ==> (#[trigger] s.remove(i)[j]).0@ != s[i].0@,
        entries_map(s.remove(i)) == entries_map(s).remove(s[i].0@),
    decreases s.len(),
{
    let k = s[i].0@;
    assert forall|j: int|
        0 <= j < s.remove(i).len() implies (#[trigger] s.remove(i)[j]).0@ != k by {
        if j < i {
            assert(s.remove(i)[j] == s[j]);
        } else {
            assert(s.remove(i)[j] == s[j + 1]);
        }
    }
    assert forall|a: int, b: int|
        0 <= a < b < s.remove(i).len() implies (#[trigger] s.remove(i)[a]).0@ != (
    #[trigger] s.remove(i)[b]).0@ by {
        if a < i {
            assert(s.remove(i)[a] == s[a]);
        } else {
            assert(s.remove(i)[a] == s[a + 1]);
        }
        if b < i {
            assert(s.remove(i)[b] == s[b]);
        } else {
            assert(s.remove(i)[b] == s[b + 1]);
        }
    }
    if i == s.len() - 1 {
        assert(s.remove(i) =~= s.drop_last());
        lemma_distinct_drop_last(s);
        assert forall|j: int|
            0 <= j < s.drop_last().len() implies (#[trigger] s.drop_last()[j]).0@ != k by {
            assert(s.drop_last()[j] == s[j]);
        }
        lemma_absent(s.drop_last(), k);
        assert(entries_map(s.drop_last()) =~= entries_map(s.drop_last()).insert(k, s[i].1).remove(
            k,
        ));
        assert(entries_map(s) == entries_map(s.drop_last()).insert(s[s.len() - 1].0@, s[s.len()
            - 1].1));
    } else {
        lemma_distinct_drop_last(s);
        assert(s.drop_last()[i] == s[i]);
        lemma_remove(s.drop_last(), i);
        assert(s.remove(i).drop_last() =~= s.drop_last().remove(i)) by {
            assert forall|j: int|
                0 <= j < s.remove(i).drop_last().len() implies s.remove(i).drop_last()[j]
                == s.drop_last().remove(i)[j] by {
                if j < i {
                    assert(s.remove(i).drop_last()[j] == s[j]);
                    assert(s.drop_last().remove(i)[j] == s[j]);
                } else {
                    assert(s.remove(i).drop_last()[j] == s[j + 1]);
                    assert(s.drop_last().remove(i)[j] == s[j + 1]);
                }
            }
        }
        assert(s.remove(i).last() == s[s.len() - 1]) by {
            assert(s.remove(i)[s.len() - 2] == s[s.len() - 1]);
        }
        let lk = s[s.len() - 1].0@;
        let lv = s[s.len() - 1].1;
        assert(lk != k);
        assert(entries_map(s.remove(i)) == entries_map(s.drop_last()).remove(k).insert(lk, lv));
        assert(entries_map(s).remove(k) == entries_map(s.drop_last()).insert(lk, lv).remove(k));
        assert(entries_map(s.drop_last()).remove(k).insert(lk, lv) =~= entries_map(
            s.drop_last(),
        ).insert(lk, lv).remove(k));
    }
}

/// A vector of key/value entries with pairwise-distinct keys, seen as a
/// finite map from key characters to values.
pub(crate) struct AssocMap<V> {
    pairs: Vec<(String, V)>,
}

impl<V> View for AssocMap<V> {
    type V = Map<Seq<char>, V>;

    closed spec fn view(&self) -> Map<Seq<char>, V> {
        entries_map(self.pairs@)
    }
}

impl<V> AssocMap<V> {
    #[verifier::type_invariant]
    spec fn wf(self) -> bool {
        keys_distinct(self.pairs@)
    }

    /// An empty map.
    pub fn new() -> (r: Self)
        ensures
            r@ == Map::<Seq<char>, V>::empty(),
    {
        AssocMap { pairs: Vec::new() }
    }

    /// The index of the entry carrying `key` among `pairs`, if any.
    fn find_in(pairs: &Vec<(String, V)>, key: &String) -> (r: Option<usize>)
        ensures
            match r {
                Some(i) => i < pairs@.len() && pairs@[i as int].0@ == key@,
                None => forall|j: int| 0 <= j < pairs@.len() ==> (#[trigger] pairs@[j]).0@ != key@,
            },
    {
        let n: usize = pairs.len();
        let mut i: usize = 0;
        while i < n
            invariant
                n == pairs@.len(),
                0 <= i <= n,
                forall|j: int| 0 <= j < i ==> (#[trigger] pairs@[j]).0@ != key@,
            decreases n - i,
        {
            if pairs[i].0 == *key {
                return Some(i);
            }
            i = i + 1;
        }
        None
    }

    /// The value stored under `key`, if any.
    pub fn get(&self, key: &String) -> (r: Option<&V>)
        ensures
            match r {
                Some(v) => self@.contains_key(key@) && *v == self@[key@],
                None => !self@.contains_key(key@),
            },
    {
        proof {
            use_type_invariant(&*self);
        }
        match Self::find_in(&self.pairs, key) {
            Some(i) => {
                proof {
                    lemma_entry_value(self.pairs@, i as int);
                }
                Some(&self.pairs[i].1)
            },
            None => {
                proof {
                    lemma_absent(self.pairs@, key@);
                }
                None
            },
        }
    }

    /// Stores `value` under `key`, handing back the value previously stored
    /// there, if any.
    pub fn insert(&mut self, key: String, value: V) -> (prev: Option<V>)
        ensures
            final(self)@ == old(self)@.insert(key@, value),
            match prev {
                Some(p) => old(self)@.contains_key(key@) && p == old(self)@[key@],
                None => !old(self)@.contains_key(key@),
            },
    {
        proof {
            use_type_invariant(&*self);
        }
        let ghost s0: Seq<(String, V)> = self.pairs@;
        let ghost k: Seq<char> = key@;
        let mut pairs: Vec<(String, V)> = Vec::new();
        core::mem::swap(&mut pairs, &mut self.pairs);
        let prev: Option<V>;
        match Self::find_in(&pairs, &key) {
            Some(i) => {
                proof {
                    lemma_entry_value(s0, i as int);
                    lemma_remove(s0, i as int);
                }
                let pair = pairs.remove(i);
                proof {
                    lemma_distinct_push_fresh(pairs@, (key, value));
                    lemma_push(pairs@, (key, value));
                    assert(entries_map(s0).remove(k).insert(k, value) =~= entries_map(s0).insert(
                        k,
                        value,
                    ));
                }
                pairs.push((key, value));
                prev = Some(pair.1);
            },
            None => {
                proof {
                    lemma_absent(s0, k);
                    lemma_distinct_push_fresh(s0, (key, value));
                    lemma_push(s0, (key, value));
                }
                pairs.push((key, value));
                prev = None;
            },
        }
        self.pairs = pairs;
        prev
    }

    /// Removes the value stored under `key`, handing it back, if any.
    pub fn remove(&mut self, key: &String) -> (prev: Option<V>)
        ensures
            final(self)@ == old(self)@.remove(key@),
            match prev {
                Some(p) => old(self)@.contains_key(key@) && p == old(self)@[key@],
                None => !old(self)@.contains_key(key@),
            },
    {
        proof {
            use_type_invariant(&*self);
        }
        let ghost s0: Seq<(String, V)> = self.pairs@;
        let mut pairs: Vec<(String, V)> = Vec::new();
        core::mem::swap(&mut pairs, &mut self.pairs);
        let prev: Option<V>;
        match Self::find_in(&pairs, key) {
            Some(i) => {
                proof {
                    lemma_entry_value(s0, i as int);
                    lemma_remove(s0, i as int);
                }
                let pair = pairs.remove(i);
                prev = Some(pair.1);
            },
            None => {
                proof {
                    lemma_absent(s0, key@);
                    assert(entries_map(s0).remove(key@) =~= entries_map(s0));
                }
                prev = None;
            },
        }
        self.pairs = pairs;
        prev
    }

    /// Every key currently present, each exactly once.
    pub fn keys(&self) -> (r: Vec<String>)
        ensures
            forall|i: int| 0 <= i < r@.len() ==> self@.contains_key((#[trigger] r@[i])@),
            forall|k: Seq<char>|
                self@.contains_key(k) ==> exists|i: int|
                    0 <= i < r@.len() && (#[trigger] r@[i])@ == k,
            forall|i: int, j: int|
                0 <= i < j < r@.len() ==> (#[trigger] r@[i])@ != (#[trigger] r@[j])@,
    {
        proof {
            use_type_invariant(&*self);
        }
        let n: usize = self.pairs.len();
        let mut r: Vec<String> = Vec::new();
        let mut i: usize = 0;
        while i < n
            invariant
                n == self.pairs@.len(),
                0 <= i <= n,
                r@.len() == i,
                forall|j: int| 0 <= j < i ==> (#[trigger] r@[j])@ == self.pairs@[j].0@,
            decreases n - i,
        {
            r.push(self.pairs[i].0.clone());
            i = i + 1;
        }
        proof {
            assert forall|i2: int|
                0 <= i2 < r@.len() implies self@.contains_key((#[trigger] r@[i2])@) by {
                lemma_entry_in_map(self.pairs@, i2);
            }
            assert forall|k: Seq<char>|
                self@.contains_key(k) implies exists|i2: int|
                0 <= i2 < r@.len() && (#[trigger] r@[i2])@ == k by {
                lemma_exists_entry(self.pairs@, k);
                let j = choose|j: int|
                    0 <= j < self.pairs@.len() && (#[trigger] self.pairs@[j]).0@ == k;
                assert((r@[j])@ == k);
            }
        }
        r
    }
}

} // verus!
