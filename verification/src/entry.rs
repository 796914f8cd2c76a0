//! The sealed cache entry: a container of named blobs, one per declared
//! compiler output plus the reserved `stdout` and `stderr` members, each with
//! an optional Unix file mode.

use vstd::prelude::*;

verus! {

/// One named blob of a cache entry.
#[derive(Debug, Clone)]
pub struct CacheObject {
    pub name: String,
    pub data: Vec<u8>,
    pub mode: Option<u32>,
}

/// A cache entry under construction or recovered from storage: a mapping from
/// member names to blob bytes and an optional Unix file mode.
#[derive(Debug, Clone)]
pub struct CacheEntry {
    objects: Vec<CacheObject>,
}

/// The mathematical contents of a sequence of named blobs, later entries
/// shadowing earlier ones of the same name.
pub open spec fn objects_map(s: Seq<CacheObject>) -> Map<Seq<char>, (Seq<u8>, Option<u32>)>
    decreases s.len(),
{
    if s.len() == 0 {
        Map::empty()
    } else {
        objects_map(s.drop_last()).insert(s.last().name@, (s.last().data@, s.last().mode))
    }
}

pub broadcast proof fn lemma_objects_map_membership(s: Seq<CacheObject>, k: Seq<char>)
    ensures
        #[trigger] objects_map(s).contains_key(k) <==> exists|i: int|
            0 <= i < s.len() && s[i].name@ == k,
    decreases s.len(),
{
    if s.len() > 0 {
        lemma_objects_map_membership(s.drop_last(), k);
        if s.last().name@ != k && objects_map(s).contains_key(k) {
            let i = choose|i: int| 0 <= i < s.drop_last().len() && s.drop_last()[i].name@ == k;
            assert(s[i].name@ == k);
        }
        if exists|i: int| 0 <= i < s.len() && s[i].name@ == k
            && !objects_map(s).contains_key(k) {
            let i = choose|i: int| 0 <= i < s.len() && s[i].name@ == k;
            assert(s.drop_last()[i].name@ == k);
        }
    }
}

/// In a sequence with pairwise distinct names, any member holds exactly the
/// mapped value of its name.
pub proof fn lemma_objects_map_at(s: Seq<CacheObject>, i: int)
    requires
        0 <= i < s.len(),
        forall|p: int, q: int|
            #![trigger s[p].name@, s[q].name@]
            0 <= p < q < s.len() ==> s[p].name@ != s[q].name@,
    ensures
        objects_map(s).contains_key(s[i].name@),
        objects_map(s)[s[i].name@] == (s[i].data@, s[i].mode),
    decreases s.len(),
{
    broadcast use lemma_objects_map_membership;

    if i == s.len() - 1 {
    } else {
        lemma_objects_map_at(s.drop_last(), i);
        assert(s.drop_last()[i] == s[i]);
        assert(s.last().name@ != s[i].name@);
    }
}

impl CacheEntry {
    /// Names are pairwise distinct, so the map view loses nothing.
    pub closed spec fn wf(&self) -> bool {
        forall|p: int, q: int|
            #![trigger self.objects@[p].name@, self.objects@[q].name@]
            0 <= p < q < self.objects@.len() ==> self.objects@[p].name@
                != self.objects@[q].name@
    }

    /// The entry's contents: member name to blob bytes and optional file mode.
    pub closed spec fn contents(&self) -> Map<Seq<char>, (Seq<u8>, Option<u32>)> {
        objects_map(self.objects@)
    }

    /// A fresh entry with no members.
    pub fn new() -> (r: CacheEntry)
        ensures
            r.wf(),
            r.contents() == Map::<Seq<char>, (Seq<u8>, Option<u32>)>::empty(),
    {
        CacheEntry { objects: Vec::new() }
    }

    /// Add a blob under `name`, replacing any previous member of that name.
    pub fn put_object(&mut self, name: String, data: Vec<u8>, mode: Option<u32>)
        requires
            old(self).wf(),
        ensures
            final(self).wf(),
            final(self).contents() == old(self).contents().insert(name@, (data@, mode)),
    {
        let mut i: usize = 0;
        let n = self.objects.len();
        while i < n
            invariant
                self == old(self),
                self.wf(),
                n == self.objects@.len(),
                forall|j: int| 0 <= j < i ==> self.objects@[j].name@ != name@,
            decreases n - i,
        {
            if self.objects[i].name == name {
                proof {
                    lemma_replace_at(self.objects@, i as int, name@, data@, mode);
                }
                let ghost before = self.objects@;
                self.objects.remove(i);
                self.objects.insert(i, CacheObject { name, data, mode });
                proof {
                    assert(self.objects@ =~= before.update(i as int, self.objects@[i as int]));
                    assert(forall|j: int|
                        0 <= j < self.objects@.len() ==> (#[trigger] self.objects@[j].name@)
                            == before[j].name@);
                }
                return ;
            }
            i += 1;
        }
        proof {
            assert(self.objects@.push(CacheObject { name, data, mode }).drop_last()
                =~= self.objects@);
        }
        self.objects.push(CacheObject { name, data, mode });
    }

    /// Fetch the blob stored under `name`, if any.
    pub fn get_object(&self, name: &str) -> (r: Option<(Vec<u8>, Option<u32>)>)
        requires
            self.wf(),
        ensures
            match r {
                Some((data, mode)) => self.contents().contains_key(name@)
                    && self.contents()[name@] == (data@, mode),
                None => !self.contents().contains_key(name@),
            },
    {
        proof {
            broadcast use lemma_objects_map_membership;

        }
        let n = self.objects.len();
        let mut i: usize = 0;
        while i < n
            invariant
                self.wf(),
                n == self.objects@.len(),
                forall|j: int| 0 <= j < i ==> self.objects@[j].name@ != name@,
            decreases n - i,
        {
            if str_eq(self.objects[i].name.as_str(), name) {
                proof {
                    lemma_objects_map_at(self.objects@, i as int);
                }
                let data = clone_bytes(&self.objects[i].data);
                return Some((data, self.objects[i].mode));
            }
            i += 1;
        }
        None
    }

    /// The members in insertion order.
    pub closed spec fn objects_seq(&self) -> Seq<CacheObject> {
        self.objects@
    }

    /// The number of stored members, without the well-formedness premise.
    pub fn object_count(&self) -> (r: usize)
        ensures
            r == self.objects_seq().len(),
    {
        self.objects.len()
    }

    /// The member at one position of insertion order.
    pub fn object_at(&self, i: usize) -> (r: (String, Vec<u8>, Option<u32>))
        requires
            self.wf(),
            i < self.objects_seq().len(),
        ensures
            r.0@ == self.objects_seq()[i as int].name@,
            r.1@ == self.objects_seq()[i as int].data@,
            r.2 == self.objects_seq()[i as int].mode,
            self.contents().contains_key(r.0@) && self.contents()[r.0@] == (r.1@, r.2),
    {
        proof {
            lemma_objects_map_at(self.objects@, i as int);
        }
        let o = &self.objects[i];
        (o.name.clone(), clone_bytes(&o.data), o.mode)
    }

    /// The number of members.
    pub fn len(&self) -> (r: usize)
        requires
            self.wf(),
        ensures
            r == self.contents().dom().len(),
    {
        proof {
            lemma_unique_names_card(self.objects@);
        }
        self.objects.len()
    }
}

proof fn lemma_replace_at(
    s: Seq<CacheObject>,
    i: int,
    name: Seq<char>,
    data: Seq<u8>,
    mode: Option<u32>,
)
    requires
        0 <= i < s.len(),
        s[i].name@ == name,
        forall|p: int, q: int|
            #![trigger s[p].name@, s[q].name@]
            0 <= p < q < s.len() ==> s[p].name@ != s[q].name@,
    ensures
        forall|o: CacheObject|
            o.name@ == name && o.data@ == data && o.mode == mode ==> objects_map(
                #[trigger] s.update(i, o),
            ) == objects_map(s).insert(name, (data, mode)),
    decreases s.len(),
{
    assert forall|o: CacheObject|
        o.name@ == name && o.data@ == data && o.mode == mode implies objects_map(
        s.update(i, o),
    ) == objects_map(s).insert(name, (data, mode)) by {
        let t = s.update(i, o);
        if i == s.len() - 1 {
            assert(t.drop_last() =~= s.drop_last());
            assert(objects_map(t) =~= objects_map(s).insert(name, (data, mode)));
        } else {
            lemma_replace_at(s.drop_last(), i, name, data, mode);
            assert(t.drop_last() =~= s.drop_last().update(i, o));
            assert(t.last() == s.last());
            assert(s.last().name@ != name);
            assert(objects_map(t) =~= objects_map(s).insert(name, (data, mode)));
        }
    }
}

proof fn lemma_unique_names_card(s: Seq<CacheObject>)
    requires
        forall|p: int, q: int|
            #![trigger s[p].name@, s[q].name@]
            0 <= p < q < s.len() ==> s[p].name@ != s[q].name@,
    ensures
        objects_map(s).dom().len() == s.len(),
        objects_map(s).dom().finite(),
    decreases s.len(),
{
    broadcast use lemma_objects_map_membership;

    if s.len() > 0 {
        lemma_unique_names_card(s.drop_last());
        assert(!objects_map(s.drop_last()).contains_key(s.last().name@));
    }
}

/// Byte-for-byte copy of a blob.
pub fn clone_bytes(v: &Vec<u8>) -> (r: Vec<u8>)
    ensures
        r@ == v@,
{
    let r = v.clone();
    proof {
        assert(r@ =~= v@);
    }
    r
}

/// Exact comparison of two strings.
pub fn str_eq(a: &str, b: &str) -> (r: bool)
    ensures
        r == (a@ == b@),
{
    let sa = String::from_str(a);
    let sb = String::from_str(b);
    sa == sb
}

} // verus!
