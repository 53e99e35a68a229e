//! Batching: the filtered subset is partitioned into fixed-size groups that
//! are pushed to the backend one request each. Batching is exhaustive and
//! non-overlapping — the concatenation of all batches is exactly the input —
//! and no batch exceeds the configured size or is empty.

use vstd::prelude::*;

use crate::detect::SyncItem;

verus! {

/// The views of a batch list, as sequences.
pub open spec fn batches_view(batches: Seq<Vec<SyncItem>>) -> Seq<Seq<SyncItem>> {
    batches.map_values(|b: Vec<SyncItem>| b@)
}

/// Split the items into consecutive batches of at most `batch_size` each,
/// all but the last one full.
pub fn make_batches(items: Vec<SyncItem>, batch_size: usize) -> (batches: Vec<Vec<SyncItem>>)
    requires
        batch_size >= 1,
    ensures
        batches_view(batches@).flatten() == items@,
        forall|k: int|
            0 <= k < batches@.len() ==> 1 <= (#[trigger] batches@[k])@.len() <= batch_size,
        items@.len() == 0 ==> batches@.len() == 0,
{
    let mut batches: Vec<Vec<SyncItem>> = Vec::new();
    let mut current: Vec<SyncItem> = Vec::new();
    let mut i: usize = 0;
    while i < items.len()
        invariant
            batch_size >= 1,
            i <= items@.len(),
            batches_view(batches@).flatten() + current@ =~= items@.take(i as int),
            current@.len() < batch_size,
            forall|k: int|
                0 <= k < batches@.len() ==> 1 <= (#[trigger] batches@[k])@.len() <= batch_size,
        decreases items@.len() - i,
    {
        current.push(items[i].clone());
        i += 1;
        proof {
            assert(items@.take(i as int).drop_last() =~= items@.take(i - 1));
            assert(items@.take(i as int) =~= items@.take(i - 1).push(items@[i - 1]));
        }
        if current.len() == batch_size {
            let ghost full = current@;
            let ghost prebv = batches_view(batches@);
            batches.push(current);
            current = Vec::new();
            proof {
                assert(batches_view(batches@) =~= prebv.push(full));
                prebv.lemma_flatten_push(full);
                assert(batches_view(batches@).flatten() + current@ =~= items@.take(i as int));
            }
        }
    }
    if current.len() > 0 {
        let ghost full = current@;
        let ghost prebv = batches_view(batches@);
        batches.push(current);
        proof {
            assert(batches_view(batches@) =~= prebv.push(full));
            prebv.lemma_flatten_push(full);
        }
    }
    proof {
        assert(items@.take(items@.len() as int) =~= items@);
        if current@.len() == 0 {
            assert(batches_view(batches@).flatten() + current@ =~= batches_view(
                batches@,
            ).flatten());
        }
    }
    batches
}

} // verus!
