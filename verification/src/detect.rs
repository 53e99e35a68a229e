//! Change detection: the two interchangeable strategies that keep a sync
//! incremental. The fingerprint-manifest diff compares each item against the
//! persisted manifest; the timestamp-threshold filter compares each item's
//! own time against the backend watermark.

use vstd::prelude::*;

use vstd::multiset::Multiset;

use crate::manifest::{BookManifestEntry, ChangeManifest, PROGRESS_TOLERANCE};

verus! {

/// One item fetched from a source, reduced to what the engine decides on: a
/// stable external key, the item's own creation/modification time (epoch
/// seconds) if it has one, the fingerprint fields, and the serialized body
/// that the shell pushes to the backend (opaque to the engine).
pub struct SyncItem {
    pub external_id: String,
    pub timestamp: Option<i64>,
    pub annotation_count: usize,
    pub reading_progress: u32,
    pub payload: String,
}

impl Clone for SyncItem {
    fn clone(&self) -> (res: Self)
        ensures
            res == *self,
    {
        SyncItem {
            external_id: self.external_id.clone(),
            timestamp: self.timestamp,
            annotation_count: self.annotation_count,
            reading_progress: self.reading_progress,
            payload: self.payload.clone(),
        }
    }
}

/// Two progress values differ only when they are more than the tolerance
/// apart (progress is in thousandths).
pub open spec fn progress_differs(a: u32, b: u32) -> bool {
    (if a >= b {
        a - b
    } else {
        b - a
    }) > PROGRESS_TOLERANCE
}

/// Fingerprint-manifest diff: an item is changed if it is absent from the
/// manifest, or its stored fingerprint differs — a different annotation
/// count, or progress apart by more than the tolerance.
pub open spec fn spec_fingerprint_changed(
    m: Map<Seq<char>, BookManifestEntry>,
    item: SyncItem,
) -> bool {
    if m.dom().contains(item.external_id@) {
        let e = m[item.external_id@];
        e.annotation_count != item.annotation_count || progress_differs(
            e.reading_progress,
            item.reading_progress,
        )
    } else {
        true
    }
}

/// The diff as a predicate over items, for one fixed manifest.
pub open spec fn fingerprint_changed_pred(
    m: Map<Seq<char>, BookManifestEntry>,
) -> spec_fn(SyncItem) -> bool {
    |item: SyncItem| spec_fingerprint_changed(m, item)
}

pub fn fingerprint_changed(manifest: &ChangeManifest, item: &SyncItem) -> (r: bool)
    requires
        manifest.wf(),
    ensures
        r == spec_fingerprint_changed(manifest@, *item),
{
    match manifest.get(&item.external_id) {
        None => true,
        Some(e) => {
            let delta = if e.reading_progress >= item.reading_progress {
                e.reading_progress - item.reading_progress
            } else {
                item.reading_progress - e.reading_progress
            };
            e.annotation_count != item.annotation_count || delta > PROGRESS_TOLERANCE
        },
    }
}

/// The changed subset of the fetched items, in fetch order. On an empty
/// manifest (first run) this is every item.
pub fn detect_changed_items(manifest: &ChangeManifest, items: &Vec<SyncItem>) -> (r: Vec<
    SyncItem,
>)
    requires
        manifest.wf(),
    ensures
        r@ == items@.filter(fingerprint_changed_pred(manifest@)),
        manifest@.dom() =~= Set::<Seq<char>>::empty() ==> r@ == items@,
{
    let ghost pred = fingerprint_changed_pred(manifest@);
    let mut r: Vec<SyncItem> = Vec::new();
    let mut i: usize = 0;
    while i < items.len()
        invariant
            manifest.wf(),
            i <= items@.len(),
            r@ == items@.take(i as int).filter(pred),
            pred == fingerprint_changed_pred(manifest@),
        decreases items@.len() - i,
    {
        let changed = fingerprint_changed(manifest, &items[i]);
        proof {
            assert(items@.take(i + 1).drop_last() =~= items@.take(i as int));
            assert(items@.take(i + 1).last() == items@[i as int]);
            reveal(Seq::filter);
        }
        if changed {
            r.push(items[i].clone());
        }
        i += 1;
    }
    proof {
        assert(items@.take(items@.len() as int) =~= items@);
        if manifest@.dom() =~= Set::<Seq<char>>::empty() {
            lemma_filter_all_true(items@, pred);
        }
    }
    r
}

/// Timestamp-threshold filter: with no watermark every item is included;
/// with watermark `t` exactly the items with a timestamp strictly greater
/// than `t`, plus every item with no timestamp at all (conservatively
/// included to avoid silent data loss).
pub open spec fn spec_timestamp_included(watermark: Option<i64>, item: SyncItem) -> bool {
    match watermark {
        Option::None => true,
        Option::Some(t) => match item.timestamp {
            Option::None => true,
            Option::Some(ts) => ts > t,
        },
    }
}

pub open spec fn timestamp_included_pred(watermark: Option<i64>) -> spec_fn(SyncItem) -> bool {
    |item: SyncItem| spec_timestamp_included(watermark, item)
}

pub fn filter_by_timestamp(watermark: Option<i64>, items: &Vec<SyncItem>) -> (r: Vec<SyncItem>)
    ensures
        r@ == items@.filter(timestamp_included_pred(watermark)),
        watermark is None ==> r@ == items@,
{
    let ghost pred = timestamp_included_pred(watermark);
    let mut r: Vec<SyncItem> = Vec::new();
    let mut i: usize = 0;
    while i < items.len()
        invariant
            i <= items@.len(),
            r@ == items@.take(i as int).filter(pred),
            pred == timestamp_included_pred(watermark),
        decreases items@.len() - i,
    {
        let included = match watermark {
            None => true,
            Some(t) => match items[i].timestamp {
                None => true,
                Some(ts) => ts > t,
            },
        };
        proof {
            assert(items@.take(i + 1).drop_last() =~= items@.take(i as int));
            assert(items@.take(i + 1).last() == items@[i as int]);
            reveal(Seq::filter);
        }
        if included {
            r.push(items[i].clone());
        }
        i += 1;
    }
    proof {
        assert(items@.take(items@.len() as int) =~= items@);
        if watermark is None {
            lemma_filter_all_true(items@, pred);
        }
    }
    r
}

/// A filter whose predicate holds of every element keeps the sequence whole.
proof fn lemma_filter_all_true<A>(s: Seq<A>, pred: spec_fn(A) -> bool)
    requires
        forall|i: int| 0 <= i < s.len() ==> pred(#[trigger] s[i]),
    ensures
        s.filter(pred) == s,
    decreases s.len(),
{
    reveal(Seq::filter);
    if s.len() > 0 {
        assert(forall|i: int|
            0 <= i < s.drop_last().len() ==> pred(#[trigger] s.drop_last()[i]));
        lemma_filter_all_true(s.drop_last(), pred);
        assert(s.filter(pred) =~= s);
    }
}

/// Filtering commutes with forgetting order: the multiset of a filtered
/// sequence is the filtered multiset of the sequence.
proof fn lemma_filter_to_multiset<A>(s: Seq<A>, pred: spec_fn(A) -> bool)
    ensures
        s.filter(pred).to_multiset() == s.to_multiset().filter(pred),
    decreases s.len(),
{
    broadcast use vstd::multiset::group_multiset_axioms;
    broadcast use vstd::seq_lib::group_to_multiset_ensures;

    reveal(Seq::filter);
    if s.len() == 0 {
        assert(s.to_multiset() =~= Multiset::<A>::empty());
        assert(s.filter(pred).to_multiset() =~= s.to_multiset().filter(pred));
    } else {
        let dl = s.drop_last();
        let last = s.last();
        lemma_filter_to_multiset(dl, pred);
        assert(dl.push(last) =~= s);
        assert(s.to_multiset() == dl.to_multiset().insert(last));
        if pred(last) {
            assert(s.filter(pred) == dl.filter(pred).push(last));
            assert(s.filter(pred).to_multiset() == dl.filter(pred).to_multiset().insert(last));
            assert(dl.to_multiset().insert(last).filter(pred) =~= dl.to_multiset().filter(
                pred,
            ).insert(last));
        } else {
            assert(s.filter(pred) == dl.filter(pred));
            assert(dl.to_multiset().insert(last).filter(pred) =~= dl.to_multiset().filter(pred));
        }
    }
}

/// Fingerprint-diff is order-independent: given the same manifest, item
/// sequences that are permutations of each other produce changed subsets
/// that are permutations of each other.
pub proof fn lemma_fingerprint_diff_order_independent(
    m: Map<Seq<char>, BookManifestEntry>,
    items1: Seq<SyncItem>,
    items2: Seq<SyncItem>,
)
    requires
        items1.to_multiset() == items2.to_multiset(),
    ensures
        items1.filter(fingerprint_changed_pred(m)).to_multiset() == items2.filter(
            fingerprint_changed_pred(m),
        ).to_multiset(),
{
    lemma_filter_to_multiset(items1, fingerprint_changed_pred(m));
    lemma_filter_to_multiset(items2, fingerprint_changed_pred(m));
}

} // verus!
