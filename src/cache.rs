//! The identity cache: names to opaque engine handles.
//!
//! The cache only speeds up re-entry into the engine for an entity already
//! fetched; it is not a record of what exists, and every hit is still checked
//! against the engine by the caller. It is append-only: when two engine
//! objects report the same name, the later one wins.
use vstd::prelude::*;

verus! {

/// The map that a list of entries stands for: later entries override earlier
/// ones.
pub open spec fn entries_map(s: Seq<(Seq<char>, u64)>) -> Map<Seq<char>, u64>
    decreases s.len(),
{
    if s.len() == 0 {
        Map::empty()
    } else {
        entries_map(s.drop_last()).insert(s.last().0, s.last().1)
    }
}

/// The entry at `i` is the last one with key `k`.
pub open spec fn last_with_key(s: Seq<(Seq<char>, u64)>, k: Seq<char>, i: int) -> bool {
    &&& 0 <= i < s.len()
    &&& s[i].0 == k
    &&& forall|j: int| i < j < s.len() ==> (#[trigger] s[j]).0 != k
}

/// The last entry with a key decides what the map holds for it.
proof fn lemma_last_entry_wins(s: Seq<(Seq<char>, u64)>, k: Seq<char>, i: int)
    requires
        last_with_key(s, k, i),
    ensures
        entries_map(s).contains_key(k),
        entries_map(s)[k] == s[i].1,
    decreases s.len(),
{
    if i < s.len() - 1 {
        let t = s.drop_last();
        assert(last_with_key(t, k, i)) by {
            assert forall|j: int| i < j < t.len() implies (#[trigger] t[j]).0 != k by {
                assert(t[j] == s[j]);
            }
        }
        lemma_last_entry_wins(t, k, i);
        assert(s.last() == s[s.len() - 1]);
    }
}

/// A key that no entry has is not in the map.
proof fn lemma_absent_key(s: Seq<(Seq<char>, u64)>, k: Seq<char>)
    requires
        forall|j: int| 0 <= j < s.len() ==> (#[trigger] s[j]).0 != k,
    ensures
        !entries_map(s).contains_key(k),
    decreases s.len(),
{
    if s.len() > 0 {
        let t = s.drop_last();
        assert forall|j: int| 0 <= j < t.len() implies (#[trigger] t[j]).0 != k by {
            assert(t[j] == s[j]);
        }
        lemma_absent_key(t, k);
        assert(s.last() == s[s.len() - 1]);
    }
}

/// Names (fully-qualified class names, dalvik method names) mapped to the
/// engine handles they were last fetched under.
pub struct IdentityCache {
    entries: Vec<(String, u64)>,
}

impl IdentityCache {
    /// The entries as keys and handles, oldest first.
    pub closed spec fn entries(&self) -> Seq<(Seq<char>, u64)> {
        self.entries@.map_values(|e: (String, u64)| (e.0@, e.1))
    }
}

impl View for IdentityCache {
    type V = Map<Seq<char>, u64>;

    closed spec fn view(&self) -> Map<Seq<char>, u64> {
        entries_map(self.entries())
    }
}

impl IdentityCache {
    /// An empty cache.
    pub fn new() -> (r: Self)
        ensures
            r@ == Map::<Seq<char>, u64>::empty(),
    {
        let r = IdentityCache { entries: Vec::new() };
        assert(r.entries() =~= Seq::<(Seq<char>, u64)>::empty());
        r
    }

    /// The handle last remembered under `key`, if any.
    pub fn lookup(&self, key: &String) -> (r: Option<u64>)
        ensures
            r == (if self@.contains_key(key@) {
                Some(self@[key@])
            } else {
                None
            }),
    {
        let ghost s = self.entries();
        let mut i: usize = self.entries.len();
        while i > 0
            invariant
                i <= self.entries@.len(),
                s == self.entries(),
                forall|j: int| i <= j < s.len() ==> (#[trigger] s[j]).0 != key@,
            decreases i,
        {
            let e = &self.entries[i - 1];
            assert(s[i - 1] == (e.0@, e.1));
            if e.0 == *key {
                proof {
                    lemma_last_entry_wins(s, key@, i - 1);
                }
                return Some(e.1);
            }
            i = i - 1;
        }
        proof {
            lemma_absent_key(s, key@);
        }
        None
    }

    /// Remembers `handle` under `key`; a later entry replaces an earlier one.
    pub fn remember(&mut self, key: String, handle: u64)
        ensures
            final(self)@ == old(self)@.insert(key@, handle),
    {
        if self.lookup(&key) == Some(handle) {
            assert(old(self)@.insert(key@, handle) =~= old(self)@);
            return;
        }
        let ghost k = key@;
        self.entries.push((key, handle));
        assert(self.entries().drop_last() =~= old(self).entries());
        assert(self.entries().last() == (k, handle));
    }
}

} // verus!
