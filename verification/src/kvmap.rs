//! A small string-keyed map with copyable values, backed by a vector of
//! pairwise-distinct entries, with a mathematical `Map` view. The server's
//! in-memory tables (the compiler-detection cache, the per-language counters,
//! the not-cacheable reasons) are held in it.

use vstd::prelude::*;

use crate::entry::str_eq;

verus! {

/// The mathematical contents of a sequence of key-value pairs, later pairs
/// shadowing earlier ones of the same key.
pub open spec fn pairs_map<V>(s: Seq<(String, V)>) -> Map<Seq<char>, V>
    decreases s.len(),
{
    if s.len() == 0 {
        Map::empty()
    } else {
        pairs_map(s.drop_last()).insert(s.last().0@, s.last().1)
    }
}

pub broadcast proof fn lemma_pairs_map_membership<V>(s: Seq<(String, V)>, k: Seq<char>)
    ensures
        #[trigger] pairs_map(s).contains_key(k) <==> exists|i: int| 0 <= i < s.len() && s[i].0@ == k,
    decreases s.len(),
{
    if s.len() > 0 {
        lemma_pairs_map_membership(s.drop_last(), k);
        if s.last().0@ != k && pairs_map(s).contains_key(k) {
            let i = choose|i: int| 0 <= i < s.drop_last().len() && s.drop_last()[i].0@ == k;
            assert(s[i].0@ == k);
        }
        if exists|i: int| 0 <= i < s.len() && s[i].0@ == k && !pairs_map(s).contains_key(k) {
            let i = choose|i: int| 0 <= i < s.len() && s[i].0@ == k;
            assert(s.drop_last()[i].0@ == k);
        }
    }
}

/// In a sequence with pairwise distinct keys, any pair holds exactly the
/// mapped value of its key.
pub proof fn lemma_pairs_map_at<V>(s: Seq<(String, V)>, i: int)
    requires
        0 <= i < s.len(),
        forall|p: int, q: int|
            #![trigger s[p].0@, s[q].0@]
            0 <= p < q < s.len() ==> s[p].0@ != s[q].0@,
    ensures
        pairs_map(s).contains_key(s[i].0@),
        pairs_map(s)[s[i].0@] == s[i].1,
    decreases s.len(),
{
    broadcast use lemma_pairs_map_membership;

    if i == s.len() - 1 {
    } else {
        lemma_pairs_map_at(s.drop_last(), i);
        assert(s.drop_last()[i] == s[i]);
        assert(s.last().0@ != s[i].0@);
    }
}

proof fn lemma_pairs_replace_at<V>(s: Seq<(String, V)>, i: int, k: Seq<char>, v: V)
    requires
        0 <= i < s.len(),
        s[i].0@ == k,
        forall|p: int, q: int|
            #![trigger s[p].0@, s[q].0@]
            0 <= p < q < s.len() ==> s[p].0@ != s[q].0@,
    ensures
        forall|pair: (String, V)|
            pair.0@ == k && pair.1 == v ==> pairs_map(#[trigger] s.update(i, pair)) == pairs_map(
                s,
            ).insert(k, v),
    decreases s.len(),
{
    assert forall|pair: (String, V)| pair.0@ == k && pair.1 == v implies pairs_map(
        s.update(i, pair),
    ) == pairs_map(s).insert(k, v) by {
        let t = s.update(i, pair);
        if i == s.len() - 1 {
            assert(t.drop_last() =~= s.drop_last());
            assert(pairs_map(t) =~= pairs_map(s).insert(k, v));
        } else {
            lemma_pairs_replace_at(s.drop_last(), i, k, v);
            assert(t.drop_last() =~= s.drop_last().update(i, pair));
            assert(t.last() == s.last());
            assert(s.last().0@ != k);
            assert(pairs_map(t) =~= pairs_map(s).insert(k, v));
        }
    }
}

proof fn lemma_pairs_unique_card<V>(s: Seq<(String, V)>)
    requires
        forall|p: int, q: int|
            #![trigger s[p].0@, s[q].0@]
            0 <= p < q < s.len() ==> s[p].0@ != s[q].0@,
    ensures
        pairs_map(s).dom().len() == s.len(),
        pairs_map(s).dom().finite(),
    decreases s.len(),
{
    broadcast use lemma_pairs_map_membership;

    if s.len() > 0 {
        lemma_pairs_unique_card(s.drop_last());
        assert(!pairs_map(s.drop_last()).contains_key(s.last().0@));
    }
}

/// A map from strings to copyable values.
#[derive(Debug, Clone)]
pub struct KvMap<V> {
    entries: Vec<(String, V)>,
}

impl<V: Copy> KvMap<V> {
    /// Keys are pairwise distinct, so the map view loses nothing.
    pub closed spec fn wf(&self) -> bool {
        forall|p: int, q: int|
            #![trigger self.entries@[p].0@, self.entries@[q].0@]
            0 <= p < q < self.entries@.len() ==> self.entries@[p].0@ != self.entries@[q].0@
    }

    /// The contents as a mathematical map.
    pub closed spec fn view(&self) -> Map<Seq<char>, V> {
        pairs_map(self.entries@)
    }

    /// The entries in their insertion order.
    pub closed spec fn entries_seq(&self) -> Seq<(String, V)> {
        self.entries@
    }

    /// An empty map.
    pub fn new() -> (r: Self)
        ensures
            r.wf(),
            r@ == Map::<Seq<char>, V>::empty(),
            r.entries_seq() == Seq::<(String, V)>::empty(),
    {
        KvMap { entries: Vec::new() }
    }

    /// Look a key up.
    pub fn get(&self, key: &str) -> (r: Option<V>)
        requires
            self.wf(),
        ensures
            match r {
                Option::Some(v) => self@.contains_key(key@) && self@[key@] == v,
                Option::None => !self@.contains_key(key@),
            },
    {
        proof {
            broadcast use lemma_pairs_map_membership;

        }
        let n = self.entries.len();
        let mut i: usize = 0;
        while i < n
            invariant
                self.wf(),
                n == self.entries@.len(),
                forall|j: int| 0 <= j < i ==> self.entries@[j].0@ != key@,
            decreases n - i,
        {
            if str_eq(self.entries[i].0.as_str(), key) {
                proof {
                    lemma_pairs_map_at(self.entries@, i as int);
                }
                return Option::Some(self.entries[i].1);
            }
            i += 1;
        }
        Option::None
    }

    /// Bind `key` to `v`, replacing any previous binding.
    pub fn insert(&mut self, key: String, v: V)
        requires
            old(self).wf(),
        ensures
            final(self).wf(),
            final(self)@ == old(self)@.insert(key@, v),
            old(self)@.contains_key(key@) ==> final(self).entries_seq().len() == old(
                self,
            ).entries_seq().len(),
            !old(self)@.contains_key(key@) ==> final(self).entries_seq() == old(
                self,
            ).entries_seq().push((key, v)),
    {
        proof {
            broadcast use lemma_pairs_map_membership;

        }
        let n = self.entries.len();
        let mut i: usize = 0;
        while i < n
            invariant
                self == old(self),
                self.wf(),
                n == self.entries@.len(),
                forall|j: int| 0 <= j < i ==> self.entries@[j].0@ != key@,
            decreases n - i,
        {
            if self.entries[i].0 == key {
                proof {
                    lemma_pairs_map_membership(self.entries@, key@);
                    lemma_pairs_replace_at(self.entries@, i as int, key@, v);
                }
                let ghost before = self.entries@;
                self.entries.remove(i);
                self.entries.insert(i, (key, v));
                proof {
                    assert(self.entries@ =~= before.update(i as int, self.entries@[i as int]));
                    assert(forall|j: int|
                        0 <= j < self.entries@.len() ==> (#[trigger] self.entries@[j].0@)
                            == before[j].0@);
                }
                return ;
            }
            i += 1;
        }
        proof {
            assert(self.entries@.push((key, v)).drop_last() =~= self.entries@);
        }
        self.entries.push((key, v));
    }

    /// How many keys are bound.
    pub fn len(&self) -> (r: usize)
        requires
            self.wf(),
        ensures
            r == self@.dom().len(),
            r == self.entries_seq().len(),
    {
        proof {
            lemma_pairs_unique_card(self.entries@);
        }
        self.entries.len()
    }

    /// The key and value at one position of the insertion order.
    pub fn entry_at(&self, i: usize) -> (r: (String, V))
        requires
            self.wf(),
            i < self.entries_seq().len(),
        ensures
            r.0@ == self.entries_seq()[i as int].0@,
            r.1 == self.entries_seq()[i as int].1,
            self@.contains_key(r.0@) && self@[r.0@] == r.1,
    {
        proof {
            lemma_pairs_map_at(self.entries@, i as int);
        }
        let (k, v) = &self.entries[i];
        (k.clone(), *v)
    }

    /// The number of stored entries, without the well-formedness premise.
    pub fn entry_count(&self) -> (r: usize)
        ensures
            r == self.entries_seq().len(),
    {
        self.entries.len()
    }
}

} // verus!
