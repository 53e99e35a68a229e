//! Incremental pagination decisions. Several sources hand out their items in
//! pages, newest first; the shell fetches page after page and asks here
//! which items of a page are new relative to the backend watermark and
//! whether an already-synced item was reached, so the scan can stop. The
//! paging I/O loop lives in the shell; every decision is made here.

use vstd::prelude::*;

verus! {

/// One paged item, reduced to what the decisions read: its own timestamp, if
/// it has one, and whether the source still offers it (sources mark deleted
/// or hidden entries, which are never pushed).
#[derive(Clone, Copy, PartialEq, Eq, Structural, Debug)]
pub struct PageItem {
    pub timestamp: Option<i64>,
    pub available: bool,
}

/// An item is old when both it and the watermark carry a time and the item
/// is not strictly newer. Items without a timestamp are never old.
pub open spec fn spec_item_old(item: PageItem, since: Option<i64>) -> bool {
    match (item.timestamp, since) {
        (Option::Some(ts), Option::Some(s)) => ts <= s,
        _ => false,
    }
}

/// Whether a scan-whole-page source pushes the item: it is available and not
/// old.
pub open spec fn spec_page_keep(item: PageItem, since: Option<i64>) -> bool {
    item.available && !spec_item_old(item, since)
}

fn item_old(item: &PageItem, since: Option<i64>) -> (r: bool)
    ensures
        r == spec_item_old(*item, since),
{
    match (item.timestamp, since) {
        (Some(ts), Some(s)) => ts <= s,
        _ => false,
    }
}

/// The decision about one fetched page.
pub struct PageDecision {
    pub keep: Vec<bool>,
    pub reached_old: bool,
}

/// Scan the whole page: keep every available item that is not old, and
/// report whether any old item was seen — the following pages are older
/// still, so the scan can stop after this one.
pub fn filter_page(items: &Vec<PageItem>, since: Option<i64>) -> (d: PageDecision)
    ensures
        d.keep@.len() == items@.len(),
        forall|i: int|
            0 <= i < items@.len() ==> d.keep@[i] == spec_page_keep(#[trigger] items@[i], since),
        d.reached_old == exists|i: int|
            0 <= i < items@.len() && spec_item_old(#[trigger] items@[i], since),
{
    let mut keep: Vec<bool> = Vec::new();
    let mut reached_old = false;
    let mut i: usize = 0;
    while i < items.len()
        invariant
            i <= items@.len(),
            keep@.len() == i,
            forall|j: int|
                0 <= j < i ==> keep@[j] == spec_page_keep(#[trigger] items@[j], since),
            reached_old == exists|j: int|
                0 <= j < i && spec_item_old(#[trigger] items@[j], since),
        decreases items@.len() - i,
    {
        let old_item = item_old(&items[i], since);
        keep.push(items[i].available && !old_item);
        if old_item {
            reached_old = true;
        }
        i += 1;
    }
    PageDecision { keep, reached_old }
}

/// Stop at the first old item: keep exactly the items before it (all of
/// them, available or not — sources using this mode do not mark
/// availability), and report whether one was reached.
pub fn take_until_old(items: &Vec<PageItem>, since: Option<i64>) -> (d: PageDecision)
    ensures
        d.keep@.len() == items@.len(),
        forall|i: int|
            0 <= i < items@.len() ==> d.keep@[i] == (forall|j: int|
                0 <= j <= i ==> !spec_item_old(#[trigger] items@[j], since)),
        d.reached_old == exists|i: int|
            0 <= i < items@.len() && spec_item_old(#[trigger] items@[i], since),
{
    let mut keep: Vec<bool> = Vec::new();
    let mut reached_old = false;
    let mut i: usize = 0;
    while i < items.len()
        invariant
            i <= items@.len(),
            keep@.len() == i,
            forall|j: int|
                0 <= j < i ==> keep@[j] == (forall|k: int|
                    0 <= k <= j ==> !spec_item_old(#[trigger] items@[k], since)),
            reached_old == exists|j: int|
                0 <= j < i && spec_item_old(#[trigger] items@[j], since),
        decreases items@.len() - i,
    {
        if item_old(&items[i], since) {
            reached_old = true;
        }
        keep.push(!reached_old);
        i += 1;
    }
    PageDecision { keep, reached_old }
}

} // verus!
