//! The persisted change manifest for fingerprint-diff sources: a map from a
//! stable per-item key to a small fingerprint record. It is loaded before a
//! sync attempt, updated in memory batch by batch as items are confirmed
//! pushed, and persisted by the shell after the attempt.

use vstd::prelude::*;

verus! {

/// Reading progress is kept in thousandths (0..=1000) so the fingerprint is
/// exact; progress differences of at most this many thousandths are treated
/// as unchanged.
pub const PROGRESS_TOLERANCE: u32 = 5;

/// Per-item fingerprint: how many annotations the item had and its reading
/// progress in thousandths when it was last pushed.
#[derive(Clone, Copy, Debug, PartialEq, Eq, Structural)]
pub struct BookManifestEntry {
    pub annotation_count: usize,
    pub reading_progress: u32,
}

/// Mapping from a stable per-item external key to its fingerprint. Keys are
/// unique; the model is the corresponding mathematical map.
pub struct ChangeManifest {
    entries: Vec<(String, BookManifestEntry)>,
}

impl View for ChangeManifest {
    type V = Map<Seq<char>, BookManifestEntry>;

    closed spec fn view(&self) -> Map<Seq<char>, BookManifestEntry> {
        map_of(self.entries@)
    }
}

/// The map described by a key-fingerprint pair sequence; a later pair wins,
/// though well-formed manifests never repeat a key.
pub open spec fn map_of(s: Seq<(String, BookManifestEntry)>) -> Map<
    Seq<char>,
    BookManifestEntry,
>
    decreases s.len(),
{
    if s.len() == 0 {
        Map::empty()
    } else {
        map_of(s.drop_last()).insert(s.last().0@, s.last().1)
    }
}

pub open spec fn unique_keys(s: Seq<(String, BookManifestEntry)>) -> bool {
    forall|i: int, j: int| 0 <= i < j < s.len() ==> s[i].0@ != s[j].0@
}

proof fn lemma_map_of_contains(s: Seq<(String, BookManifestEntry)>, k: Seq<char>)
    ensures
        map_of(s).dom().contains(k) <==> exists|i: int| 0 <= i < s.len() && s[i].0@ == k,
    decreases s.len(),
{
    if s.len() > 0 {
        lemma_map_of_contains(s.drop_last(), k);
        if s.last().0@ != k && map_of(s.drop_last()).dom().contains(k) {
            let i = choose|i: int| 0 <= i < s.drop_last().len() && s.drop_last()[i].0@ == k;
            assert(s[i].0@ == k);
        }
        if exists|i: int| 0 <= i < s.len() && s[i].0@ == k {
            let i = choose|i: int| 0 <= i < s.len() && s[i].0@ == k;
            if i < s.len() - 1 {
                assert(s.drop_last()[i].0@ == k);
            }
        }
    }
}

proof fn lemma_map_of_index(s: Seq<(String, BookManifestEntry)>, i: int)
    requires
        unique_keys(s),
        0 <= i < s.len(),
    ensures
        map_of(s).dom().contains(s[i].0@),
        map_of(s)[s[i].0@] == s[i].1,
    decreases s.len(),
{
    if i == s.len() - 1 {
    } else {
        assert(s.drop_last()[i] == s[i]);
        lemma_map_of_index(s.drop_last(), i);
        assert(s.last().0@ != s[i].0@);
    }
}

impl ChangeManifest {
    pub closed spec fn wf(self) -> bool {
        unique_keys(self.entries@)
    }

    /// The empty manifest: the state before a source's first sync, and the
    /// recovery value when the persisted manifest is unreadable.
    pub fn new() -> (m: ChangeManifest)
        ensures
            m.wf(),
            m@ == Map::<Seq<char>, BookManifestEntry>::empty(),
    {
        ChangeManifest { entries: Vec::new() }
    }

    pub fn len(&self) -> (n: usize)
        requires
            self.wf(),
        ensures
            n == self@.dom().len(),
    {
        proof {
            lemma_map_of_len(self.entries@);
        }
        self.entries.len()
    }

    /// Look a key up.
    pub fn get(&self, key: &String) -> (r: Option<&BookManifestEntry>)
        requires
            self.wf(),
        ensures
            match r {
                Option::Some(e) => self@.dom().contains(key@) && *e == self@[key@],
                Option::None => !self@.dom().contains(key@),
            },
    {
        let mut i: usize = 0;
        while i < self.entries.len()
            invariant
                self.wf(),
                i <= self.entries@.len(),
                forall|j: int| 0 <= j < i ==> (#[trigger] self.entries@[j]).0@ != key@,
            decreases self.entries@.len() - i,
        {
            if self.entries[i].0 == *key {
                proof {
                    lemma_map_of_index(self.entries@, i as int);
                }
                return Some(&self.entries[i].1);
            }
            i += 1;
        }
        proof {
            lemma_map_of_contains(self.entries@, key@);
        }
        None
    }

    /// Insert or replace one key's fingerprint.
    pub fn insert(&mut self, key: String, entry: BookManifestEntry)
        requires
            old(self).wf(),
        ensures
            final(self).wf(),
            final(self)@ == old(self)@.insert(key@, entry),
    {
        let mut i: usize = 0;
        while i < self.entries.len()
            invariant
                self.wf(),
                i <= self.entries@.len(),
                forall|j: int| 0 <= j < i ==> (#[trigger] self.entries@[j]).0@ != key@,
                self.entries@ == old(self).entries@,
            decreases self.entries@.len() - i,
        {
            if self.entries[i].0 == *&key {
                self.entries[i] = (key, entry);
                proof {
                    lemma_map_of_update(old(self).entries@, self.entries@, i as int);
                }
                return ;
            }
            i += 1;
        }
        self.entries.push((key, entry));
        proof {
            assert(self.entries@.drop_last() =~= old(self).entries@);
        }
    }

    /// The pairs, for persistence; the model is exactly their map.
    pub fn entries(&self) -> (r: &Vec<(String, BookManifestEntry)>)
        ensures
            map_of(r@) == self@,
    {
        &self.entries
    }

    /// Rebuild a manifest from persisted pairs; a later duplicate of a key
    /// wins, as in the map model.
    pub fn from_entries(entries: Vec<(String, BookManifestEntry)>) -> (m: ChangeManifest)
        ensures
            m.wf(),
            m@ == map_of(entries@),
    {
        let mut m = ChangeManifest::new();
        let mut i: usize = 0;
        while i < entries.len()
            invariant
                m.wf(),
                i <= entries@.len(),
                m@ == map_of(entries@.take(i as int)),
            decreases entries@.len() - i,
        {
            let (k, e) = (&entries[i].0, entries[i].1);
            m.insert(k.clone(), e);
            proof {
                assert(entries@.take(i + 1).drop_last() =~= entries@.take(i as int));
                assert(entries@.take(i + 1).last() == entries@[i as int]);
            }
            i += 1;
        }
        proof {
            assert(entries@.take(entries@.len() as int) =~= entries@);
        }
        m
    }
}

proof fn lemma_map_of_len(s: Seq<(String, BookManifestEntry)>)
    requires
        unique_keys(s),
    ensures
        map_of(s).dom().len() == s.len(),
        map_of(s).dom().finite(),
    decreases s.len(),
{
    if s.len() > 0 {
        lemma_map_of_len(s.drop_last());
        lemma_map_of_contains(s.drop_last(), s.last().0@);
        assert(!map_of(s.drop_last()).dom().contains(s.last().0@));
        vstd::set::axiom_set_insert_len(map_of(s.drop_last()).dom(), s.last().0@);
        assert(map_of(s).dom() =~= map_of(s.drop_last()).dom().insert(s.last().0@));
    }
}

proof fn lemma_map_of_update(
    pre: Seq<(String, BookManifestEntry)>,
    post: Seq<(String, BookManifestEntry)>,
    i: int,
)
    requires
        unique_keys(pre),
        0 <= i < pre.len(),
        post.len() == pre.len(),
        post[i].0@ == pre[i].0@,
        forall|j: int| 0 <= j < pre.len() && j != i ==> post[j] == pre[j],
    ensures
        unique_keys(post),
        map_of(post) == map_of(pre).insert(pre[i].0@, post[i].1),
    decreases pre.len(),
{
    assert forall|a: int, b: int| 0 <= a < b < post.len() implies post[a].0@ != post[b].0@ by {
        assert(pre[a].0@ != pre[b].0@);
    }
    if i == pre.len() - 1 {
        assert(post.drop_last() =~= pre.drop_last());
        assert(map_of(post) =~= map_of(pre).insert(pre[i].0@, post[i].1));
    } else {
        assert forall|j: int|
            0 <= j < pre.drop_last().len() && j != i implies post.drop_last()[j]
            == pre.drop_last()[j] by {
            assert(post[j] == pre[j]);
        }
        lemma_map_of_update(pre.drop_last(), post.drop_last(), i);
        assert(post.last() == pre.last());
        assert(pre.last().0@ != pre[i].0@);
        assert(map_of(post) =~= map_of(pre).insert(pre[i].0@, post[i].1));
    }
}

} // verus!
