//! An asset bundle: a mapping from logical paths to encoded byte sequences,
//! used as the unit of exchange for serialized images.

use vstd::prelude::*;

verus! {

/// Relies on `<str as PartialEq>::eq` of the standard library: two string
/// slices compare equal exactly when they hold the same characters.
pub assume_specification[ <str as PartialEq<str>>::eq ](a: &str, b: &str) -> (r: bool)
    ensures
        r == (a@ == b@),
;

/// The mapping described by a sequence of path/bytes entries: every key is
/// bound to the bytes of the latest entry that carries it.
pub open spec fn kv_map(s: Seq<(String, Vec<u8>)>) -> Map<Seq<char>, Seq<u8>>
    decreases s.len(),
{
    if s.len() == 0 {
        Map::empty()
    } else {
        kv_map(s.drop_last()).insert(s.last().0@, s.last().1@)
    }
}

/// If the entry at `i` is the latest one with key `k`, the mapping binds `k`
/// to that entry's bytes.
proof fn lemma_kv_map_get(s: Seq<(String, Vec<u8>)>, k: Seq<char>, i: int)
    requires
        0 <= i < s.len(),
        s[i].0@ == k,
        forall|j: int| i < j < s.len() ==> s[j].0@ != k,
    ensures
        kv_map(s).contains_key(k),
        kv_map(s)[k] == s[i].1@,
    decreases s.len(),
{
    if i + 1 < s.len() {
        lemma_kv_map_get(s.drop_last(), k, i);
    }
}

/// A key that no entry carries is not in the mapping.
proof fn lemma_kv_map_absent(s: Seq<(String, Vec<u8>)>, k: Seq<char>)
    requires
        forall|j: int| 0 <= j < s.len() ==> s[j].0@ != k,
    ensures
        !kv_map(s).contains_key(k),
    decreases s.len(),
{
    if s.len() > 0 {
        lemma_kv_map_absent(s.drop_last(), k);
    }
}

/// A bundle of raw assets: encoded byte sequences keyed by logical path.
/// Viewed as a map from path to bytes.
#[derive(Debug, Clone, PartialEq, Eq)]
pub struct RawAssets {
    entries: Vec<(String, Vec<u8>)>,
}

impl View for RawAssets {
    type V = Map<Seq<char>, Seq<u8>>;

    closed spec fn view(&self) -> Map<Seq<char>, Seq<u8>> {
        kv_map(self.entries@)
    }
}

impl RawAssets {
    /// An empty bundle.
    pub fn new() -> (r: Self)
        ensures
            r@ == Map::<Seq<char>, Seq<u8>>::empty(),
    {
        RawAssets { entries: Vec::new() }
    }

    /// Bind `path` to `bytes`, replacing any earlier binding of the same
    /// path.
    pub fn insert(&mut self, path: &str, bytes: Vec<u8>)
        ensures
            final(self)@ == old(self)@.insert(path@, bytes@),
    {
        let owned: String = path.to_owned();
        self.entries.push((owned, bytes));
        proof {
            assert(self.entries@.drop_last() =~= old(self).entries@);
        }
    }

    /// Look up the bytes bound to `path`, if any.
    pub fn get(&self, path: &str) -> (r: Option<&Vec<u8>>)
        ensures
            match r {
                Some(b) => self@.contains_key(path@) && b@ == self@[path@],
                None => !self@.contains_key(path@),
            },
    {
        let mut i: usize = self.entries.len();
        while i > 0
            invariant
                i <= self.entries@.len(),
                forall|j: int| i <= j < self.entries@.len() ==> self.entries@[j].0@ != path@,
            decreases i,
        {
            i = i - 1;
            if self.entries[i].0.as_str().eq(path) {
                proof {
                    lemma_kv_map_get(self.entries@, path@, i as int);
                }
                return Some(&self.entries[i].1);
            }
        }
        proof {
            lemma_kv_map_absent(self.entries@, path@);
        }
        None
    }
}

} // verus!
