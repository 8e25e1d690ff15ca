use vstd::prelude::*;

use crate::text::same;

verus! {

/// No two entries of `s` have the same key.
pub open spec fn unique_keys<V>(s: Seq<(String, V)>) -> bool {
    forall|i: int, j: int|
        0 <= i < s.len() && 0 <= j < s.len() && i != j ==> #[trigger] s[i].0@ != #[trigger] s[j].0@
}

/// Some entry of `s` has the key `k`.
pub open spec fn has_key<V>(s: Seq<(String, V)>, k: Seq<char>) -> bool {
    exists|i: int| 0 <= i < s.len() && #[trigger] s[i].0@ == k
}

/// The index of the first entry with key `k`, where there is one.
pub open spec fn index_of<V>(s: Seq<(String, V)>, k: Seq<char>) -> int {
    choose|i: int|
        0 <= i < s.len() && #[trigger] s[i].0@ == k && forall|j: int| 0 <= j < i ==> #[trigger] s[j].0@ != k
}

/// The map that a list of entries stands for: each key to the value of
/// its first entry.
pub open spec fn as_map<V>(s: Seq<(String, V)>) -> Map<Seq<char>, V> {
    Map::new(|k: Seq<char>| has_key(s, k), |k: Seq<char>| s[index_of(s, k)].1)
}

/// A map from strings to values, kept as a list of entries in the order in
/// which their keys first came in. A key occurs at most once.
pub struct KeyedList<V> {
    entries: Vec<(String, V)>,
}

impl<V> KeyedList<V> {
    /// The entries, in order.
    pub closed spec fn entries(&self) -> Seq<(String, V)> {
        self.entries@
    }

    /// Every key occurs once.
    pub open spec fn wf(&self) -> bool {
        unique_keys(self.entries())
    }

    /// The map from each key to its value.
    pub open spec fn view(&self) -> Map<Seq<char>, V> {
        as_map(self.entries())
    }

    /// An empty list.
    pub fn new() -> (r: Self)
        ensures
            r.wf(),
            r.entries().len() == 0,
            r@ == Map::<Seq<char>, V>::empty(),
    {
        let r = KeyedList { entries: Vec::new() };
        assert(as_map(r.entries@) =~= Map::<Seq<char>, V>::empty());
        r
    }

    /// The number of entries.
    pub fn len(&self) -> (n: usize)
        ensures
            n == self.entries().len(),
    {
        self.entries.len()
    }

    /// The key and value of the entry at index `i`.
    pub fn entry(&self, i: usize) -> (r: (&String, &V))
        requires
            i < self.entries().len(),
        ensures
            *r.0 == self.entries()[i as int].0,
            *r.1 == self.entries()[i as int].1,
    {
        let e = &self.entries[i];
        (&e.0, &e.1)
    }

    /// The index of the first entry whose key is `key`.
    pub fn position(&self, key: &[char]) -> (r: Option<usize>)
        ensures
            r is None <==> !has_key(self.entries(), key@),
            r matches Some(i) ==> i < self.entries().len() && self.entries()[i as int].0@ == key@
                && i == index_of(self.entries(), key@),
    {
        let mut i: usize = 0;
        while i < self.entries.len()
            invariant
                i <= self.entries@.len(),
                forall|m: int| 0 <= m < i ==> #[trigger] self.entries@[m].0@ != key@,
            decreases self.entries.len() - i,
        {
            let k = crate::text::chars_of(self.entries[i].0.as_str());
            if same(k.as_slice(), key) {
                proof {
                    assert(self.entries@[i as int].0@ == key@);
                    lemma_first_index(self.entries@, key@);
                    let c = index_of(self.entries@, key@);
                    if c < i {
                        assert(self.entries@[c].0@ != key@);
                    } else if c > i {
                        assert(self.entries@[i as int].0@ != key@);
                    }
                }
                return Some(i);
            }
            i = i + 1;
        }
        proof {
            assert forall|m: int| 0 <= m < self.entries@.len() implies #[trigger] self.entries@[m].0@
                != key@ by {}
        }
        None
    }

    /// The value stored under `key`.
    pub fn get(&self, key: &[char]) -> (r: Option<&V>)
        ensures
            r is None <==> !self@.contains_key(key@),
            r matches Some(v) ==> *v == self@[key@],
    {
        match self.position(key) {
            Some(i) => Some(&self.entries[i].1),
            None => None,
        }
    }

    /// Stores `value` under `key`: an entry with that key is updated in
    /// place, else a new entry goes at the end.
    pub fn insert(&mut self, key: String, value: V)
        requires
            old(self).wf(),
        ensures
            final(self).wf(),
            final(self)@ == old(self)@.insert(key@, value),
            has_key(old(self).entries(), key@) ==> final(self).entries() == old(
                self,
            ).entries().update(index_of(old(self).entries(), key@), (key, value)),
            !has_key(old(self).entries(), key@) ==> final(self).entries() == old(
                self,
            ).entries().push((key, value)),
    {
        let ghost before = self.entries@;
        let kc = crate::text::chars_of(key.as_str());
        match self.position(kc.as_slice()) {
            Some(i) => {
                self.entries.set(i, (key, value));
                proof {
                    lemma_update_same_key(before, i as int, (key, value));
                }
            },
            None => {
                self.entries.push((key, value));
                proof {
                    lemma_push_new_key(before, (key, value));
                }
            },
        }
    }

    /// Removes the entry stored under `key`, where there is one.
    pub fn remove(&mut self, key: &[char])
        requires
            old(self).wf(),
        ensures
            final(self).wf(),
            final(self)@ == old(self)@.remove(key@),
            has_key(old(self).entries(), key@) ==> final(self).entries() == old(
                self,
            ).entries().remove(index_of(old(self).entries(), key@)),
            !has_key(old(self).entries(), key@) ==> final(self).entries() == old(self).entries(),
    {
        let ghost before = self.entries@;
        match self.position(key) {
            Some(i) => {
                self.entries.remove(i);
                proof {
                    lemma_remove_key(before, i as int);
                }
            },
            None => {
                assert(as_map(before) =~= as_map(before).remove(key@));
            },
        }
    }
}

/// Where some entry holds key `k`, `index_of(s, k)` is the first that does.
pub proof fn lemma_first_index<V>(s: Seq<(String, V)>, k: Seq<char>)
    requires
        has_key(s, k),
    ensures
        0 <= index_of(s, k) < s.len(),
        s[index_of(s, k)].0@ == k,
        forall|j: int| 0 <= j < index_of(s, k) ==> #[trigger] s[j].0@ != k,
    decreases s.len(),
{
    let w = choose|i: int| 0 <= i < s.len() && #[trigger] s[i].0@ == k;
    if s[0].0@ == k {
        assert(0 <= 0 < s.len() && s[0].0@ == k && forall|j: int| 0 <= j < 0 ==> #[trigger] s[j].0@ != k);
    } else {
        let t = s.drop_first();
        assert(t[w - 1] == s[w]);
        assert(has_key(t, k));
        lemma_first_index(t, k);
        let f = index_of(t, k);
        assert(s[f + 1] == t[f]);
        assert forall|j: int| 0 <= j < f + 1 implies #[trigger] s[j].0@ != k by {
            if j > 0 {
                assert(s[j] == t[j - 1]);
            }
        }
        assert(0 <= f + 1 < s.len() && s[f + 1].0@ == k && forall|j: int|
            0 <= j < f + 1 ==> #[trigger] s[j].0@ != k);
    }
}

/// The entry at `index_of(s, k)` holds key `k`, and no other does.
pub proof fn lemma_index_of<V>(s: Seq<(String, V)>, k: Seq<char>)
    requires
        unique_keys(s),
        has_key(s, k),
    ensures
        0 <= index_of(s, k) < s.len(),
        s[index_of(s, k)].0@ == k,
        forall|j: int| 0 <= j < s.len() && s[j].0@ == k ==> j == index_of(s, k),
{
    lemma_first_index(s, k);
    let c = index_of(s, k);
    assert forall|j: int| 0 <= j < s.len() && s[j].0@ == k implies j == c by {
        if j != c {
            assert(s[j].0@ != s[c].0@);
        }
    }
}

proof fn lemma_update_same_key<V>(s: Seq<(String, V)>, i: int, e: (String, V))
    requires
        unique_keys(s),
        0 <= i < s.len(),
        s[i].0@ == e.0@,
    ensures
        unique_keys(s.update(i, e)),
        as_map(s.update(i, e)) == as_map(s).insert(e.0@, e.1),
{
    let t = s.update(i, e);
    assert(unique_keys(t)) by {
        assert forall|a: int, b: int|
            0 <= a < t.len() && 0 <= b < t.len() && a != b implies #[trigger] t[a].0@
            != #[trigger] t[b].0@ by {
            assert(s[a].0@ != s[b].0@);
        }
    }
    assert forall|k: Seq<char>| has_key(t, k) == has_key(s, k) by {
        if has_key(t, k) {
            let j = choose|j: int| 0 <= j < t.len() && #[trigger] t[j].0@ == k;
            assert(s[j].0@ == k);
        }
        if has_key(s, k) {
            let j = choose|j: int| 0 <= j < s.len() && #[trigger] s[j].0@ == k;
            assert(t[j].0@ == k);
        }
    }
    assert forall|k: Seq<char>| #[trigger] has_key(t, k) implies t[index_of(t, k)].1 == (if k
        == e.0@ {
        e.1
    } else {
        s[index_of(s, k)].1
    }) by {
        lemma_index_of(t, k);
        lemma_index_of(s, k);
        if k == e.0@ {
            assert(t[i].0@ == k);
        } else {
            let j = index_of(t, k);
            assert(j != i);
            assert(s[j].0@ == k);
        }
    }
    assert(as_map(t) =~= as_map(s).insert(e.0@, e.1));
}

proof fn lemma_push_new_key<V>(s: Seq<(String, V)>, e: (String, V))
    requires
        unique_keys(s),
        !has_key(s, e.0@),
    ensures
        unique_keys(s.push(e)),
        as_map(s.push(e)) == as_map(s).insert(e.0@, e.1),
{
    let t = s.push(e);
    assert(unique_keys(t)) by {
        assert forall|a: int, b: int|
            0 <= a < t.len() && 0 <= b < t.len() && a != b implies #[trigger] t[a].0@
            != #[trigger] t[b].0@ by {
            if a < s.len() && b < s.len() {
                assert(s[a].0@ != s[b].0@);
            } else if a < s.len() {
                assert(s[a].0@ != e.0@);
            } else {
                assert(s[b].0@ != e.0@);
            }
        }
    }
    assert forall|k: Seq<char>| has_key(t, k) == (has_key(s, k) || k == e.0@) by {
        if has_key(t, k) {
            let j = choose|j: int| 0 <= j < t.len() && #[trigger] t[j].0@ == k;
            if j < s.len() {
                assert(s[j].0@ == k);
            }
        }
        if has_key(s, k) {
            let j = choose|j: int| 0 <= j < s.len() && #[trigger] s[j].0@ == k;
            assert(t[j].0@ == k);
        }
        if k == e.0@ {
            assert(t[s.len() as int].0@ == k);
        }
    }
    assert forall|k: Seq<char>| #[trigger] has_key(t, k) implies t[index_of(t, k)].1 == (if k
        == e.0@ {
        e.1
    } else {
        s[index_of(s, k)].1
    }) by {
        lemma_index_of(t, k);
        if k == e.0@ {
            assert(t[s.len() as int].0@ == k);
        } else {
            lemma_index_of(s, k);
            let j = index_of(t, k);
            assert(j < s.len());
            assert(s[j].0@ == k);
        }
    }
    assert(as_map(t) =~= as_map(s).insert(e.0@, e.1));
}

proof fn lemma_remove_key<V>(s: Seq<(String, V)>, i: int)
    requires
        unique_keys(s),
        0 <= i < s.len(),
    ensures
        unique_keys(s.remove(i)),
        as_map(s.remove(i)) == as_map(s).remove(s[i].0@),
{
    let t = s.remove(i);
    let gone = s[i].0@;
    assert(unique_keys(t)) by {
        assert forall|a: int, b: int|
            0 <= a < t.len() && 0 <= b < t.len() && a != b implies #[trigger] t[a].0@
            != #[trigger] t[b].0@ by {
            let sa = if a < i {
                a
            } else {
                a + 1
            };
            let sb = if b < i {
                b
            } else {
                b + 1
            };
            assert(t[a] == s[sa]);
            assert(t[b] == s[sb]);
            assert(s[sa].0@ != s[sb].0@);
        }
    }
    assert forall|k: Seq<char>| has_key(t, k) == (has_key(s, k) && k != gone) by {
        if has_key(t, k) {
            let j = choose|j: int| 0 <= j < t.len() && #[trigger] t[j].0@ == k;
            let sj = if j < i {
                j
            } else {
                j + 1
            };
            assert(t[j] == s[sj]);
            assert(s[sj].0@ == k);
            assert(s[sj].0@ != s[i].0@);
        }
        if has_key(s, k) && k != gone {
            let j = choose|j: int| 0 <= j < s.len() && #[trigger] s[j].0@ == k;
            assert(j != i);
            let tj = if j < i {
                j
            } else {
                j - 1
            };
            assert(t[tj] == s[j]);
            assert(t[tj].0@ == k);
        }
    }
    assert forall|k: Seq<char>| #[trigger] has_key(t, k) implies t[index_of(t, k)].1 == s[index_of(
        s,
        k,
    )].1 by {
        lemma_index_of(t, k);
        lemma_index_of(s, k);
        let j = index_of(t, k);
        let sj = if j < i {
            j
        } else {
            j + 1
        };
        assert(t[j] == s[sj]);
        assert(s[sj].0@ == k);
    }
    assert(as_map(t) =~= as_map(s).remove(gone));
}

} // verus!
