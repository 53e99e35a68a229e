//! Durable per-source sync state: one record per platform, mutated only
//! through the methods here, so every transition of the status machine is
//! checked.

use vstd::prelude::*;

use crate::platform::{Platform, SyncPlatformStatus, PLATFORM_COUNT};

verus! {

/// Per-source record: status, last confirmed sync time (RFC 3339 text),
/// item count of the last successful run, and the last error text if any.
pub struct SyncStateRecord {
    pub status: SyncPlatformStatus,
    pub last_sync_at: Option<String>,
    pub item_count: u32,
    pub last_error: Option<String>,
}

/// Mathematical model of one record: strings become character sequences.
pub struct RecordModel {
    pub status: SyncPlatformStatus,
    pub last_sync_at: Option<Seq<char>>,
    pub item_count: u32,
    pub last_error: Option<Seq<char>>,
}

impl View for SyncStateRecord {
    type V = RecordModel;

    open spec fn view(&self) -> RecordModel {
        RecordModel {
            status: self.status,
            last_sync_at: crate::strutil::opt_str_view(self.last_sync_at),
            item_count: self.item_count,
            last_error: crate::strutil::opt_str_view(self.last_error),
        }
    }
}

impl SyncStateRecord {
    /// The state a record has before the source has ever been synced.
    pub open spec fn initial() -> RecordModel {
        RecordModel {
            status: SyncPlatformStatus::Idle,
            last_sync_at: Option::None,
            item_count: 0,
            last_error: Option::None,
        }
    }

    pub fn new() -> (r: SyncStateRecord)
        ensures
            r@ == SyncStateRecord::initial(),
    {
        SyncStateRecord {
            status: SyncPlatformStatus::Idle,
            last_sync_at: None,
            item_count: 0,
            last_error: None,
        }
    }
}

/// The set of per-source records, one for each platform. This is the only
/// durable state of the engine besides the change manifests; the shell
/// persists it after every transition.
pub struct SyncState {
    records: Vec<SyncStateRecord>,
}

impl View for SyncState {
    type V = Seq<RecordModel>;

    closed spec fn view(&self) -> Seq<RecordModel> {
        self.records@.map_values(|r: SyncStateRecord| r@)
    }
}

impl SyncState {
    /// Well-formed: one record per platform.
    pub open spec fn wf(self) -> bool {
        self@.len() == PLATFORM_COUNT
    }

    /// The model of the record for one platform.
    pub open spec fn record_of(self, p: Platform) -> RecordModel {
        self@[p.index_spec()]
    }

    pub fn new() -> (s: SyncState)
        ensures
            s.wf(),
            forall|p: Platform| s.record_of(p) == SyncStateRecord::initial(),
    {
        let mut records: Vec<SyncStateRecord> = Vec::new();
        let mut i: usize = 0;
        while i < PLATFORM_COUNT
            invariant
                i <= PLATFORM_COUNT,
                records@.len() == i,
                forall|j: int|
                    0 <= j < i ==> (#[trigger] records@[j])@ == SyncStateRecord::initial(),
            decreases PLATFORM_COUNT - i,
        {
            records.push(SyncStateRecord::new());
            i += 1;
        }
        SyncState { records }
    }

    /// Read access to one platform's record.
    pub fn record(&self, p: Platform) -> (r: &SyncStateRecord)
        requires
            self.wf(),
        ensures
            r@ == self.record_of(p),
    {
        &self.records[p.index()]
    }

    /// Rebuild a state from records handed in by the shell (e.g. read back
    /// from the durable store), padding or truncating to one per platform.
    pub fn from_records(records: Vec<SyncStateRecord>) -> (s: SyncState)
        ensures
            s.wf(),
            forall|p: Platform|
                p.index_spec() < records@.len() ==> #[trigger] s.record_of(p)
                    == records@[p.index_spec()]@,
            forall|p: Platform|
                p.index_spec() >= records@.len() ==> #[trigger] s.record_of(p)
                    == SyncStateRecord::initial(),
    {
        let ghost orig = records@;
        let mut recs = records;
        recs.truncate(PLATFORM_COUNT);
        while recs.len() < PLATFORM_COUNT
            invariant
                recs@.len() <= PLATFORM_COUNT,
                recs@.len() >= orig.len() || recs@.len() == PLATFORM_COUNT,
                forall|j: int|
                    0 <= j < recs@.len() && j < orig.len() ==> recs@[j] == orig[j],
                forall|j: int|
                    orig.len() <= j < recs@.len() ==> (#[trigger] recs@[j])@
                        == SyncStateRecord::initial(),
            decreases PLATFORM_COUNT - recs@.len(),
        {
            recs.push(SyncStateRecord::new());
        }
        SyncState { records: recs }
    }

    /// Hand the records out, in platform index order, for persistence.
    pub fn records(&self) -> (r: &Vec<SyncStateRecord>)
        ensures
            r@.map_values(|rec: SyncStateRecord| rec@) == self@,
    {
        &self.records
    }

    /// Set only the status of one platform; all other fields and all other
    /// platforms are untouched. Used for the `-> Syncing` transition at run
    /// start.
    pub fn update_platform_status(&mut self, p: Platform, status: SyncPlatformStatus)
        requires
            old(self).wf(),
        ensures
            final(self).wf(),
            final(self).record_of(p) == (RecordModel { status, ..old(self).record_of(p) }),
            forall|q: Platform|
                q.index_spec() != p.index_spec() ==> #[trigger] final(self).record_of(q)
                    == old(self).record_of(q),
    {
        let i = p.index();
        let rec = &mut self.records[i];
        rec.status = status;
        proof {
            assert(final(self)@ =~= old(self)@.update(
                p.index_spec(),
                RecordModel { status, ..old(self).record_of(p) },
            ));
        }
    }

    /// Record a successful run: status `Success`, watermark set to `now`,
    /// item count set, error cleared. Even a run that pushed nothing updates
    /// the watermark: an empty diff is a confirmed, successful check.
    pub fn update_platform_success(&mut self, p: Platform, now: String, count: u32)
        requires
            old(self).wf(),
        ensures
            final(self).wf(),
            final(self).record_of(p) == (RecordModel {
                status: SyncPlatformStatus::Success,
                last_sync_at: Option::Some(now@),
                item_count: count,
                last_error: Option::None,
            }),
            forall|q: Platform|
                q.index_spec() != p.index_spec() ==> #[trigger] final(self).record_of(q)
                    == old(self).record_of(q),
    {
        let i = p.index();
        let rec = &mut self.records[i];
        rec.status = SyncPlatformStatus::Success;
        rec.last_sync_at = Some(now);
        rec.item_count = count;
        rec.last_error = None;
        proof {
            assert(final(self)@ =~= old(self)@.update(
                p.index_spec(),
                final(self).record_of(p),
            ));
        }
    }

    /// Record a failed run: status `Error`, error text kept; the watermark
    /// and the item count of the last successful run stay.
    pub fn update_platform_error(&mut self, p: Platform, error: String)
        requires
            old(self).wf(),
        ensures
            final(self).wf(),
            final(self).record_of(p) == (RecordModel {
                status: SyncPlatformStatus::Error,
                last_error: Option::Some(error@),
                ..old(self).record_of(p)
            }),
            forall|q: Platform|
                q.index_spec() != p.index_spec() ==> #[trigger] final(self).record_of(q)
                    == old(self).record_of(q),
    {
        let i = p.index();
        let rec = &mut self.records[i];
        rec.status = SyncPlatformStatus::Error;
        rec.last_error = Some(error);
        proof {
            assert(final(self)@ =~= old(self)@.update(
                p.index_spec(),
                final(self).record_of(p),
            ));
        }
    }

    /// Record an authorization failure: status `NeedsAuth`, error text kept;
    /// the watermark and the item count stay.
    pub fn update_platform_needs_auth(&mut self, p: Platform, error: String)
        requires
            old(self).wf(),
        ensures
            final(self).wf(),
            final(self).record_of(p) == (RecordModel {
                status: SyncPlatformStatus::NeedsAuth,
                last_error: Option::Some(error@),
                ..old(self).record_of(p)
            }),
            forall|q: Platform|
                q.index_spec() != p.index_spec() ==> #[trigger] final(self).record_of(q)
                    == old(self).record_of(q),
    {
        let i = p.index();
        let rec = &mut self.records[i];
        rec.status = SyncPlatformStatus::NeedsAuth;
        rec.last_error = Some(error);
        proof {
            assert(final(self)@ =~= old(self)@.update(
                p.index_spec(),
                final(self).record_of(p),
            ));
        }
    }

    /// Startup recovery: every record found in status `Syncing` is reset to
    /// `Idle` — such a status can only have been left behind by a process
    /// that died mid-run. No other status, and no other field, is altered.
    pub fn reset_stale_sync_state(&mut self)
        requires
            old(self).wf(),
        ensures
            final(self).wf(),
            forall|p: Platform|
                old(self).record_of(p).status == SyncPlatformStatus::Syncing
                    ==> #[trigger] final(self).record_of(p) == (RecordModel {
                    status: SyncPlatformStatus::Idle,
                    ..old(self).record_of(p)
                }),
            forall|p: Platform|
                old(self).record_of(p).status != SyncPlatformStatus::Syncing
                    ==> #[trigger] final(self).record_of(p) == old(self).record_of(p),
    {
        let mut i: usize = 0;
        while i < PLATFORM_COUNT
            invariant
                old(self).wf(),
                self@.len() == PLATFORM_COUNT,
                i <= PLATFORM_COUNT,
                forall|j: int|
                    0 <= j < i && old(self)@[j].status == SyncPlatformStatus::Syncing
                        ==> #[trigger] self@[j] == (RecordModel {
                        status: SyncPlatformStatus::Idle,
                        ..old(self)@[j]
                    }),
                forall|j: int|
                    0 <= j < i && old(self)@[j].status != SyncPlatformStatus::Syncing
                        ==> #[trigger] self@[j] == old(self)@[j],
                forall|j: int| i <= j < PLATFORM_COUNT ==> #[trigger] self@[j] == old(self)@[j],
            decreases PLATFORM_COUNT - i,
        {
            let ghost pre = self@;
            if self.records[i].status == SyncPlatformStatus::Syncing {
                let rec = &mut self.records[i];
                rec.status = SyncPlatformStatus::Idle;
                proof {
                    assert forall|j: int| 0 <= j < PLATFORM_COUNT implies #[trigger] self@[j]
                        == if j == i { RecordModel {
                            status: SyncPlatformStatus::Idle,
                            ..pre[j]
                        } } else { pre[j] } by {
                        assert(self@[j] == self.records@[j]@);
                    }
                }
            }
            i += 1;
        }
    }
}

} // verus!
