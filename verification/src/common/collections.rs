//! A small table from string keys to string values that keeps the order in which
//! its keys were first inserted.

use vstd::prelude::*;
use crate::common::text::str_eq;

verus! {

/// The map that a sequence of key-value pairs stands for: a later pair replaces
/// an earlier one with the same key.
pub open spec fn pairs_map(s: Seq<(Seq<char>, Seq<char>)>) -> Map<Seq<char>, Seq<char>>
    decreases s.len(),
{
    if s.len() == 0 {
        Map::empty()
    } else {
        pairs_map(s.drop_last()).insert(s.last().0, s.last().1)
    }
}

/// No key occurs twice.
pub open spec fn distinct_keys(s: Seq<(Seq<char>, Seq<char>)>) -> bool {
    forall|i: int, j: int| 0 <= i < j < s.len() ==> (#[trigger] s[i]).0 != (#[trigger] s[j]).0
}

/// Some pair has the key `k`.
pub open spec fn has_key(s: Seq<(Seq<char>, Seq<char>)>, k: Seq<char>) -> bool {
    exists|i: int| 0 <= i < s.len() && (#[trigger] s[i]).0 == k
}

/// The characters of each pair of strings.
pub open spec fn pairs_view(v: Seq<(String, String)>) -> Seq<(Seq<char>, Seq<char>)> {
    v.map_values(|p: (String, String)| (p.0@, p.1@))
}

/// The keys of the map are the keys of the pairs.
pub proof fn lemma_pairs_map_dom(s: Seq<(Seq<char>, Seq<char>)>, k: Seq<char>)
    ensures
        pairs_map(s).contains_key(k) <==> has_key(s, k),
    decreases s.len(),
{
    if s.len() > 0 {
        let t = s.drop_last();
        lemma_pairs_map_dom(t, k);
        if has_key(t, k) {
            let i = choose|i: int| 0 <= i < t.len() && (#[trigger] t[i]).0 == k;
            assert(s[i].0 == k);
        }
        if has_key(s, k) {
            let i = choose|i: int| 0 <= i < s.len() && (#[trigger] s[i]).0 == k;
            if i < t.len() {
                assert(t[i].0 == k);
            }
        }
        if s.last().0 == k {
            assert(s[s.len() - 1].0 == k);
        }
    }
}

/// No later pair has the key of the pair at `i`.
pub open spec fn is_last_of_key(s: Seq<(Seq<char>, Seq<char>)>, i: int) -> bool {
    &&& 0 <= i < s.len()
    &&& forall|j: int| i < j < s.len() ==> (#[trigger] s[j]).0 != s[i].0
}

/// The value of the last pair with a key is the map's value at that key.
pub proof fn lemma_pairs_map_value(s: Seq<(Seq<char>, Seq<char>)>, i: int)
    requires
        is_last_of_key(s, i),
    ensures
        pairs_map(s).contains_key(s[i].0),
        pairs_map(s)[s[i].0] == s[i].1,
    decreases s.len(),
{
    let t = s.drop_last();
    if i < s.len() - 1 {
        assert(is_last_of_key(t, i)) by {
            assert forall|j: int| i < j < t.len() implies (#[trigger] t[j]).0 != t[i].0 by {
                assert(s[j].0 != s[i].0);
            }
        }
        lemma_pairs_map_value(t, i);
        assert(s[s.len() - 1].0 != s[i].0);
    }
}

/// Appending a pair inserts it into the map.
pub proof fn lemma_pairs_map_push(s: Seq<(Seq<char>, Seq<char>)>, k: Seq<char>, v: Seq<char>)
    ensures
        pairs_map(s.push((k, v))) == pairs_map(s).insert(k, v),
        distinct_keys(s) && !has_key(s, k) ==> distinct_keys(s.push((k, v))),
{
    let p = s.push((k, v));
    assert(p.drop_last() =~= s);
    if distinct_keys(s) && !has_key(s, k) {
        assert forall|a: int, b: int| 0 <= a < b < p.len() implies (#[trigger] p[a]).0 != (
        #[trigger] p[b]).0 by {
            if b < s.len() {
                assert(s[a].0 != s[b].0);
            } else {
                assert(s[a].0 != k);
            }
        }
    }
}

/// Replacing the value of the last pair with a key inserts the new value at
/// that key.
pub proof fn lemma_pairs_map_update(s: Seq<(Seq<char>, Seq<char>)>, i: int, v: Seq<char>)
    requires
        is_last_of_key(s, i),
    ensures
        pairs_map(s.update(i, (s[i].0, v))) == pairs_map(s).insert(s[i].0, v),
        distinct_keys(s) ==> distinct_keys(s.update(i, (s[i].0, v))),
    decreases s.len(),
{
    let k = s[i].0;
    let u = s.update(i, (k, v));
    let t = s.drop_last();
    if distinct_keys(s) {
        assert forall|a: int, b: int| 0 <= a < b < u.len() implies (#[trigger] u[a]).0 != (
        #[trigger] u[b]).0 by {
            assert(s[a].0 != s[b].0);
        }
    }
    if i == s.len() - 1 {
        assert(u.drop_last() =~= t);
        assert(pairs_map(u) =~= pairs_map(s).insert(k, v));
    } else {
        assert(is_last_of_key(t, i)) by {
            assert forall|j: int| i < j < t.len() implies (#[trigger] t[j]).0 != t[i].0 by {
                assert(s[j].0 != s[i].0);
            }
        }
        lemma_pairs_map_update(t, i, v);
        assert(u.drop_last() =~= t.update(i, (k, v)));
        assert(s[s.len() - 1].0 != k);
        assert(pairs_map(u) =~= pairs_map(s).insert(k, v));
    }
}

/// A table from string keys to string values. The keys stay in the order of their
/// first insertion; the table is built by [`StringMap::insert`] alone, which
/// lets no key in twice.
#[derive(Debug)]
pub struct StringMap {
    entries: Vec<(String, String)>,
}

impl View for StringMap {
    type V = Map<Seq<char>, Seq<char>>;

    open spec fn view(&self) -> Map<Seq<char>, Seq<char>> {
        pairs_map(self.pairs())
    }
}

impl StringMap {
    /// The pairs of the table, in the order of their keys' first insertion.
    pub closed spec fn pairs(&self) -> Seq<(Seq<char>, Seq<char>)> {
        pairs_view(self.entries@)
    }

    /// An empty table.
    pub fn new() -> (r: Self)
        ensures
            r.pairs() == Seq::<(Seq<char>, Seq<char>)>::empty(),
            r@ == Map::<Seq<char>, Seq<char>>::empty(),
            distinct_keys(r.pairs()),
    {
        let r = StringMap { entries: Vec::new() };
        assert(pairs_view(r.entries@) =~= Seq::empty());
        r
    }

    /// The number of keys.
    pub fn len(&self) -> (n: usize)
        ensures
            n == self.pairs().len(),
    {
        self.entries.len()
    }

    /// Whether the table holds no key.
    pub fn is_empty(&self) -> (r: bool)
        ensures
            r == (self.pairs().len() == 0),
    {
        self.entries.len() == 0
    }

    fn position(&self, key: &str) -> (r: Option<usize>)
        ensures
            match r {
                Some(i) => is_last_of_key(self.pairs(), i as int) && self.pairs()[i as int].0
                    == key@,
                None => !has_key(self.pairs(), key@),
            },
    {
        let mut i: usize = self.entries.len();
        while i > 0
            invariant
                i <= self.entries.len(),
                forall|j: int| i <= j < self.entries.len() ==> (#[trigger] self.pairs()[j]).0
                    != key@,
            decreases i,
        {
            i -= 1;
            if str_eq(self.entries[i].0.as_str(), key) {
                return Some(i);
            }
        }
        None
    }

    /// The value at `key`, if the table holds the key.
    pub fn get(&self, key: &str) -> (r: Option<&String>)
        ensures
            match r {
                Some(v) => self@.contains_key(key@) && self@[key@] == v@,
                None => !self@.contains_key(key@),
            },
    {
        proof {
            lemma_pairs_map_dom(self.pairs(), key@);
        }
        match self.position(key) {
            Some(i) => {
                proof {
                    lemma_pairs_map_value(self.pairs(), i as int);
                }
                Some(&self.entries[i].1)
            },
            None => None,
        }
    }

    /// Whether the table holds `key`.
    pub fn contains_key(&self, key: &str) -> (r: bool)
        ensures
            r == self@.contains_key(key@),
    {
        proof {
            lemma_pairs_map_dom(self.pairs(), key@);
        }
        self.position(key).is_some()
    }

    /// Sets the value at `key`, which keeps its place if the table held it and
    /// goes to the end if not.
    pub fn insert(&mut self, key: String, value: String)
        ensures
            final(self)@ == old(self)@.insert(key@, value@),
            has_key(old(self).pairs(), key@) ==> final(self).pairs().len() == old(
                self,
            ).pairs().len(),
            !has_key(old(self).pairs(), key@) ==> final(self).pairs() == old(self).pairs().push(
                (key@, value@),
            ),
            distinct_keys(old(self).pairs()) ==> distinct_keys(final(self).pairs()),
    {
        let ghost before = self.pairs();
        match self.position(key.as_str()) {
            Some(i) => {
                self.entries.set(i, (key, value));
                proof {
                    lemma_pairs_map_update(before, i as int, value@);
                    assert(pairs_view(self.entries@) =~= before.update(i as int, (key@, value@)));
                }
            },
            None => {
                self.entries.push((key, value));
                proof {
                    lemma_pairs_map_push(before, key@, value@);
                    assert(pairs_view(self.entries@) =~= before.push((key@, value@)));
                }
            },
        }
    }

    /// The key and the value at position `i`, as copies.
    pub fn entry(&self, i: usize) -> (r: (String, String))
        requires
            i < self.pairs().len(),
        ensures
            (r.0@, r.1@) == self.pairs()[i as int],
    {
        (self.entries[i].0.clone(), self.entries[i].1.clone())
    }

    /// A copy of the pairs, in order.
    pub fn to_vec(&self) -> (r: Vec<(String, String)>)
        ensures
            pairs_view(r@) == self.pairs(),
    {
        let mut out: Vec<(String, String)> = Vec::new();
        let mut i: usize = 0;
        while i < self.entries.len()
            invariant
                i <= self.entries.len(),
                pairs_view(out@) == self.pairs().take(i as int),
            decreases self.entries.len() - i,
        {
            let ghost prev = out@;
            let k = self.entries[i].0.clone();
            let v = self.entries[i].1.clone();
            out.push((k, v));
            assert(pairs_view(out@) =~= pairs_view(prev).push((k@, v@)));
            assert(self.pairs()[i as int] == (k@, v@));
            assert(self.pairs().take(i as int + 1) =~= self.pairs().take(i as int).push(
                self.pairs()[i as int],
            ));
            i += 1;
        }
        assert(self.pairs().take(i as int) =~= self.pairs());
        out
    }

    /// Inserts every pair of `pairs`, in order: a later value replaces an earlier
    /// one at the same key.
    pub fn insert_all(&mut self, pairs: &Vec<(String, String)>)
        ensures
            final(self)@ == old(self)@.union_prefer_right(pairs_map(pairs_view(pairs@))),
            distinct_keys(old(self).pairs()) ==> distinct_keys(final(self).pairs()),
    {
        let ghost all = pairs_view(pairs@);
        let mut i: usize = 0;
        assert(all.take(0) =~= Seq::empty());
        assert(self@ =~= old(self)@.union_prefer_right(pairs_map(all.take(0))));
        while i < pairs.len()
            invariant
                i <= pairs.len(),
                all == pairs_view(pairs@),
                self@ == old(self)@.union_prefer_right(pairs_map(all.take(i as int))),
                distinct_keys(old(self).pairs()) ==> distinct_keys(self.pairs()),
            decreases pairs.len() - i,
        {
            let k = pairs[i].0.clone();
            let v = pairs[i].1.clone();
            proof {
                let t = all.take(i as int);
                assert(all[i as int] == (k@, v@));
                assert(all.take(i as int + 1) =~= t.push((k@, v@)));
                lemma_pairs_map_push(t, k@, v@);
                assert(old(self)@.union_prefer_right(pairs_map(t)).insert(k@, v@) =~= old(
                    self,
                )@.union_prefer_right(pairs_map(t).insert(k@, v@)));
            }
            self.insert(k, v);
            i += 1;
        }
        assert(all.take(i as int) =~= all);
    }

    /// Inserts every pair of `other`, in order: where both tables hold a key,
    /// the value of `other` stays.
    pub fn extend(&mut self, other: &StringMap)
        ensures
            final(self)@ == old(self)@.union_prefer_right(other@),
            distinct_keys(old(self).pairs()) ==> distinct_keys(final(self).pairs()),
    {
        self.insert_all(&other.entries);
    }
}

impl Clone for StringMap {
    fn clone(&self) -> (r: Self)
        ensures
            r.pairs() == self.pairs(),
            r@ == self@,
    {
        let entries = self.to_vec();
        StringMap { entries }
    }
}

impl Default for StringMap {
    fn default() -> (r: Self)
        ensures
            r@ == Map::<Seq<char>, Seq<char>>::empty(),
    {
        StringMap::new()
    }
}

} // verus!
