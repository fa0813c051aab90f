//! Memoizing cache for resolved artwork URLs, keyed by track path.

use vstd::prelude::*;

verus! {

/// Spec-level contents of a list of key/value pairs, later pairs
/// overriding earlier ones.
spec fn pairs_map(s: Seq<(String, String)>) -> Map<Seq<char>, Seq<char>>
    decreases s.len(),
{
    if s.len() == 0 {
        Map::empty()
    } else {
        pairs_map(s.drop_last()).insert(s.last().0@, s.last().1@)
    }
}

/// Process-lifetime memo of resolved artwork URLs. Keys are unique and an
/// entry, once written, is never replaced: the first resolution wins.
/// Entries never expire.
pub struct ArtCache {
    entries: Vec<(String, String)>,
}

impl ArtCache {
    /// The cache, seen as a map from path to URL.
    pub closed spec fn view(&self) -> Map<Seq<char>, Seq<char>> {
        pairs_map(self.entries@)
    }

    /// Well-formedness: no key occurs twice.
    pub closed spec fn wf(&self) -> bool {
        forall|i: int, j: int|
            0 <= i < j < self.entries@.len() ==> self.entries@[i].0@ != self.entries@[j].0@
    }

    pub fn new() -> (r: Self)
        ensures
            r.wf(),
            r@ == Map::<Seq<char>, Seq<char>>::empty(),
    {
        ArtCache { entries: Vec::new() }
    }

    /// Look the key up; returns the stored URL exactly when the key is present.
    pub fn get(&self, key: &String) -> (r: Option<&String>)
        requires
            self.wf(),
        ensures
            match r {
                Some(v) => self@.contains_key(key@) && v@ == self@[key@],
                None => !self@.contains_key(key@),
            },
    {
        let n = self.entries.len();
        let mut i: usize = 0;
        while i < n
            invariant
                self.wf(),
                n == self.entries@.len(),
                0 <= i <= n,
                forall|j: int| 0 <= j < i ==> self.entries@[j].0@ != key@,
            decreases n - i,
        {
            if key.eq(&self.entries[i].0) {
                proof {
                    assert(forall|a: int, b: int|
                        0 <= a < b < self.entries@.len()
                            ==> self.entries@[a].0@ != self.entries@[b].0@);
                    lemma_pairs_map_get(self.entries@, i as int);
                }
                return Some(&self.entries[i].1);
            }
            i = i + 1;
        }
        proof {
            lemma_pairs_map_contains(self.entries@, key@);
        }
        None
    }

    /// Record a resolution. A key already present keeps its first URL.
    pub fn insert(&mut self, key: String, val: String)
        requires
            old(self).wf(),
        ensures
            final(self).wf(),
            old(self)@.contains_key(key@) ==> final(self)@ == old(self)@,
            !old(self)@.contains_key(key@) ==> final(self)@ == old(self)@.insert(key@, val@),
    {
        let n = self.entries.len();
        let mut i: usize = 0;
        while i < n
            invariant
                self == old(self),
                self.wf(),
                n == self.entries@.len(),
                0 <= i <= n,
                forall|j: int| 0 <= j < i ==> self.entries@[j].0@ != key@,
            decreases n - i,
        {
            if key.eq(&self.entries[i].0) {
                proof {
                    assert(forall|a: int, b: int|
                        0 <= a < b < self.entries@.len()
                            ==> self.entries@[a].0@ != self.entries@[b].0@);
                    lemma_pairs_map_get(self.entries@, i as int);
                }
                return;
            }
            i = i + 1;
        }
        proof {
            lemma_pairs_map_contains(self.entries@, key@);
        }
        let ghost before = self.entries@;
        self.entries.push((key, val));
        proof {
            assert(self.entries@.drop_last() =~= before);
        }
    }
}

/// A key stands in the map exactly when some pair carries it.
proof fn lemma_pairs_map_contains(s: Seq<(String, String)>, k: Seq<char>)
    ensures
        pairs_map(s).contains_key(k) <==> exists|i: int| 0 <= i < s.len() && s[i].0@ == k,
    decreases s.len(),
{
    if s.len() > 0 {
        lemma_pairs_map_contains(s.drop_last(), k);
        if s.last().0@ == k {
            assert(s[s.len() - 1].0@ == k);
        } else {
            if pairs_map(s).contains_key(k) {
                let i = choose|i: int| 0 <= i < s.drop_last().len() && s.drop_last()[i].0@ == k;
                assert(s[i].0@ == k);
            }
            if exists|i: int| 0 <= i < s.len() && s[i].0@ == k {
                let i = choose|i: int| 0 <= i < s.len() && s[i].0@ == k;
                assert(i < s.len() - 1);
                assert(s.drop_last()[i].0@ == k);
            }
        }
    }
}

/// With unique keys, the map returns each pair's own value.
proof fn lemma_pairs_map_get(s: Seq<(String, String)>, i: int)
    requires
        0 <= i < s.len(),
        forall|a: int, b: int| 0 <= a < b < s.len() ==> s[a].0@ != s[b].0@,
    ensures
        pairs_map(s).contains_key(s[i].0@),
        pairs_map(s)[s[i].0@] == s[i].1@,
    decreases s.len(),
{
    if i < s.len() - 1 {
        assert(forall|a: int, b: int|
            0 <= a < b < s.drop_last().len() ==> s.drop_last()[a].0@ != s.drop_last()[b].0@);
        lemma_pairs_map_get(s.drop_last(), i);
        assert(s[i].0@ != s.last().0@);
        assert(s.drop_last()[i] == s[i]);
    }
}

} // verus!
