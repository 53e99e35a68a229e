//! One sync attempt for one source, as an explicit state machine. The shell
//! performs the outside work (adapter fetch, the three backend calls) and
//! feeds each result back; every decision — change detection, batching,
//! manifest bookkeeping, outcome classification — is made here and verified.
//!
//! Step order of a run: the caller transitions the state store to `Syncing`,
//! the adapter fetch is reported with [`SyncSession::on_items_fetched`], the
//! backend setup with [`SyncSession::on_setup_complete`], the watermark with
//! [`SyncSession::on_status`] (a failed status call is tolerated by passing
//! `None`: fetch everything), then each batch push with
//! [`SyncSession::on_batch_pushed`]. Any failure is reported with
//! [`SyncSession::on_failure`] and ends the run; remaining batches are
//! abandoned and the manifest keeps exactly the batches completed before the
//! failure. [`apply_result`] classifies and records the outcome.

use vstd::prelude::*;

use crate::batch::{batches_view, make_batches};
use crate::classify::{classify_failure, spec_is_auth_failure};
use crate::detect::{
    detect_changed_items, filter_by_timestamp, fingerprint_changed_pred, timestamp_included_pred,
    SyncItem,
};
use crate::manifest::{BookManifestEntry, ChangeManifest};
use crate::platform::{Platform, SyncPlatformStatus};
use crate::state::{RecordModel, SyncState};
use crate::text::{spec_synced_message, synced_message};

verus! {

/// Result of one sync attempt, handed back to the shell: not persisted, used
/// only to update the state record and to notify the user.
pub struct SyncResult {
    pub platform: Platform,
    pub success: bool,
    pub message: String,
    pub items_synced: u32,
}

#[derive(Clone, Copy, PartialEq, Eq, Structural, Debug)]
pub enum SessionPhase {
    AwaitingItems,
    AwaitingSetup,
    AwaitingStatus,
    Pushing,
    Finished,
}

/// The fingerprint a pushed item leaves in the manifest.
pub open spec fn entry_of(item: SyncItem) -> BookManifestEntry {
    BookManifestEntry {
        annotation_count: item.annotation_count,
        reading_progress: item.reading_progress,
    }
}

/// The manifest after the items of one batch are recorded as pushed.
pub open spec fn insert_batch(
    m: Map<Seq<char>, BookManifestEntry>,
    batch: Seq<SyncItem>,
) -> Map<Seq<char>, BookManifestEntry>
    decreases batch.len(),
{
    if batch.len() == 0 {
        m
    } else {
        insert_batch(m, batch.drop_last()).insert(
            batch.last().external_id@,
            entry_of(batch.last()),
        )
    }
}

/// The changed subset the selected strategy produces: the fingerprint diff
/// against the manifest, or the timestamp filter against the watermark.
pub open spec fn spec_changed_subset(
    p: Platform,
    m: Map<Seq<char>, BookManifestEntry>,
    items: Seq<SyncItem>,
    watermark: Option<i64>,
) -> Seq<SyncItem> {
    if p.uses_fingerprint_manifest_spec() {
        items.filter(fingerprint_changed_pred(m))
    } else {
        items.filter(timestamp_included_pred(watermark))
    }
}

/// Items in the first `k` batches.
pub open spec fn pushed_count(bv: Seq<Seq<SyncItem>>, k: int) -> int {
    bv.take(k).flatten().len() as int
}

pub struct SyncSession {
    platform: Platform,
    batch_size: usize,
    phase: SessionPhase,
    items: Vec<SyncItem>,
    source_id: Option<String>,
    batches: Vec<Vec<SyncItem>>,
    next_batch: usize,
    manifest: ChangeManifest,
    items_synced: u32,
    success: bool,
    message: String,
}

impl SyncSession {
    pub closed spec fn platform(self) -> Platform {
        self.platform
    }

    pub closed spec fn batch_size(self) -> int {
        self.batch_size as int
    }

    pub closed spec fn phase(self) -> SessionPhase {
        self.phase
    }

    pub closed spec fn items(self) -> Seq<SyncItem> {
        self.items@
    }

    pub closed spec fn source_id(self) -> Option<Seq<char>> {
        match self.source_id {
            Option::Some(s) => Option::Some(s@),
            Option::None => Option::None,
        }
    }

    pub closed spec fn batches(self) -> Seq<Seq<SyncItem>> {
        batches_view(self.batches@)
    }

    pub closed spec fn next_batch(self) -> int {
        self.next_batch as int
    }

    /// The working manifest: the persisted manifest plus the fingerprints of
    /// every item confirmed pushed so far.
    pub closed spec fn manifest_map(self) -> Map<Seq<char>, BookManifestEntry> {
        self.manifest@
    }

    pub closed spec fn items_synced(self) -> u32 {
        self.items_synced
    }

    pub closed spec fn success(self) -> bool {
        self.success
    }

    pub closed spec fn message(self) -> Seq<char> {
        self.message@
    }

    pub closed spec fn wf(self) -> bool {
        &&& self.manifest.wf()
        &&& self.batch_size >= 1
        &&& self.items@.len() <= u32::MAX
        &&& self.next_batch <= self.batches().len()
        &&& (self.phase is Pushing ==> self.next_batch < self.batches().len())
        &&& forall|k: int|
            0 <= k < self.batches().len() ==> 1 <= (#[trigger] self.batches()[k]).len()
                <= self.batch_size
        &&& pushed_count(self.batches(), self.batches().len() as int) <= u32::MAX
        &&& (self.phase is Pushing ==> self.items_synced == pushed_count(
            self.batches(),
            self.next_batch as int,
        ))
    }

    /// Start a session. `manifest` is the persisted change manifest for
    /// fingerprint-diff sources (the empty manifest otherwise, or when the
    /// persisted one was unreadable — a corrupt manifest is never fatal).
    pub fn new(platform: Platform, batch_size: usize, manifest: ChangeManifest) -> (s:
        SyncSession)
        requires
            batch_size >= 1,
            manifest.wf(),
        ensures
            s.wf(),
            s.platform() == platform,
            s.batch_size() == batch_size,
            s.phase() == SessionPhase::AwaitingItems,
            s.manifest_map() == manifest@,
    {
        SyncSession {
            platform,
            batch_size,
            phase: SessionPhase::AwaitingItems,
            items: Vec::new(),
            source_id: None,
            batches: Vec::new(),
            next_batch: 0,
            manifest,
            items_synced: 0,
            success: false,
            message: String::new(),
        }
    }

    /// The adapter's fetch came back with the source's full current item
    /// list.
    pub fn on_items_fetched(&mut self, items: Vec<SyncItem>)
        requires
            old(self).wf(),
            old(self).phase() == SessionPhase::AwaitingItems,
            items@.len() <= u32::MAX,
        ensures
            final(self).wf(),
            final(self).phase() == SessionPhase::AwaitingSetup,
            final(self).items() == items@,
            final(self).platform() == old(self).platform(),
            final(self).batch_size() == old(self).batch_size(),
            final(self).manifest_map() == old(self).manifest_map(),
    {
        self.items = items;
        self.phase = SessionPhase::AwaitingSetup;
    }

    /// The backend's setup call returned the stable source identifier.
    pub fn on_setup_complete(&mut self, source_id: String)
        requires
            old(self).wf(),
            old(self).phase() == SessionPhase::AwaitingSetup,
        ensures
            final(self).wf(),
            final(self).phase() == SessionPhase::AwaitingStatus,
            final(self).source_id() == Option::Some(source_id@),
            final(self).items() == old(self).items(),
            final(self).platform() == old(self).platform(),
            final(self).batch_size() == old(self).batch_size(),
            final(self).manifest_map() == old(self).manifest_map(),
    {
        self.source_id = Some(source_id);
        self.phase = SessionPhase::AwaitingStatus;
    }

    /// The source identifier to scope backend calls with, once setup is done.
    pub fn source(&self) -> (r: &Option<String>)
        ensures
            match r {
                Option::Some(s) => self.source_id() == Option::Some(s@),
                Option::None => self.source_id() is None,
            },
    {
        &self.source_id
    }

    /// The backend's watermark arrived (or the status call failed and the
    /// caller passes `None`: treat as first sync, include everything). Runs
    /// the source's change-detection strategy and batches the changed
    /// subset. An empty subset finishes the run at once as a success with
    /// zero items — still a confirmed, successful check.
    pub fn on_status(&mut self, watermark: Option<i64>)
        requires
            old(self).wf(),
            old(self).phase() == SessionPhase::AwaitingStatus,
        ensures
            final(self).wf(),
            final(self).platform() == old(self).platform(),
            final(self).batch_size() == old(self).batch_size(),
            final(self).manifest_map() == old(self).manifest_map(),
            ({
                let changed = spec_changed_subset(
                    old(self).platform(),
                    old(self).manifest_map(),
                    old(self).items(),
                    watermark,
                );
                if changed.len() == 0 {
                    &&& final(self).phase() == SessionPhase::Finished
                    &&& final(self).success() == true
                    &&& final(self).items_synced() == 0
                    &&& final(self).message() == spec_synced_message(0)
                } else {
                    &&& final(self).phase() == SessionPhase::Pushing
                    &&& final(self).next_batch() == 0
                    &&& final(self).batches().flatten() == changed
                    &&& forall|k: int|
                        0 <= k < final(self).batches().len()
                            ==> 1 <= (#[trigger] final(self).batches()[k]).len()
                            <= old(self).batch_size()
                    &&& final(self).items_synced() == 0
                }
            }),
    {
        let changed = if self.platform.uses_fingerprint_manifest() {
            detect_changed_items(&self.manifest, &self.items)
        } else {
            filter_by_timestamp(watermark, &self.items)
        };
        proof {
            self.items@.lemma_filter_len(fingerprint_changed_pred(self.manifest@));
            self.items@.lemma_filter_len(timestamp_included_pred(watermark));
        }
        if changed.len() == 0 {
            self.items_synced = 0;
            self.success = true;
            self.message = synced_message(0);
            self.phase = SessionPhase::Finished;
            return ;
        }
        let ghost changed_view = changed@;
        let batches = make_batches(changed, self.batch_size);
        proof {
            assert(batches_view(batches@).flatten() == changed_view);
            assert(batches_view(batches@).take(0) =~= Seq::<Seq<SyncItem>>::empty());
            assert(batches_view(batches@).take(0).flatten() =~= Seq::<SyncItem>::empty());
            assert(batches_view(batches@).take(batches_view(batches@).len() as int) =~=
                batches_view(batches@));
            assert(batches@.len() > 0);
        }
        self.batches = batches;
        self.next_batch = 0;
        self.items_synced = 0;
        self.phase = SessionPhase::Pushing;
    }

    /// The batch the shell must push next.
    pub fn current_batch(&self) -> (b: &Vec<SyncItem>)
        requires
            self.wf(),
            self.phase() == SessionPhase::Pushing,
        ensures
            b@ == self.batches()[self.next_batch()],
    {
        &self.batches[self.next_batch]
    }

    /// The backend confirmed the current batch. For a fingerprint-diff
    /// source the manifest gains exactly this batch's fingerprints — and
    /// nothing is ever written for batches that were not confirmed. Pushing
    /// the last batch finishes the run as a success.
    pub fn on_batch_pushed(&mut self)
        requires
            old(self).wf(),
            old(self).phase() == SessionPhase::Pushing,
        ensures
            final(self).wf(),
            final(self).platform() == old(self).platform(),
            final(self).batches() == old(self).batches(),
            final(self).next_batch() == old(self).next_batch() + 1,
            final(self).items_synced() == pushed_count(
                old(self).batches(),
                old(self).next_batch() + 1,
            ),
            final(self).manifest_map() == if old(self).platform().uses_fingerprint_manifest_spec() {
                insert_batch(
                    old(self).manifest_map(),
                    old(self).batches()[old(self).next_batch()],
                )
            } else {
                old(self).manifest_map()
            },
            old(self).next_batch() + 1 == old(self).batches().len() ==> {
                &&& final(self).phase() == SessionPhase::Finished
                &&& final(self).success() == true
                &&& final(self).message() == spec_synced_message(final(self).items_synced())
            },
            old(self).next_batch() + 1 < old(self).batches().len() ==> final(self).phase()
                == SessionPhase::Pushing,
    {
        let ghost bv = self.batches();
        let ghost nb = self.next_batch as int;
        proof {
            lemma_pushed_count_step(bv, nb);
            lemma_pushed_count_mono(bv, nb + 1, bv.len() as int);
            assert(bv[nb].len() <= pushed_count(bv, nb + 1));
        }
        let i = self.next_batch;
        let n_batches = self.batches.len();
        let batch_len = self.batches[i].len();
        if self.platform.uses_fingerprint_manifest() {
            record_batch(&mut self.manifest, &self.batches[i]);
        }
        self.items_synced = self.items_synced + (batch_len as u32);
        self.next_batch = i + 1;
        if self.next_batch == n_batches {
            self.success = true;
            self.message = synced_message(self.items_synced);
            self.phase = SessionPhase::Finished;
        }
    }

    /// Any failure — adapter fetch, backend setup, a failed push — ends the
    /// run. Remaining batches are abandoned and the manifest is left exactly
    /// as the completed batches made it.
    pub fn on_failure(&mut self, message: String)
        requires
            old(self).wf(),
        ensures
            final(self).wf(),
            final(self).phase() == SessionPhase::Finished,
            final(self).platform() == old(self).platform(),
            final(self).success() == false,
            final(self).items_synced() == 0,
            final(self).message() == message@,
            final(self).manifest_map() == old(self).manifest_map(),
    {
        self.success = false;
        self.items_synced = 0;
        self.message = message;
        self.phase = SessionPhase::Finished;
    }

    /// Whether the run has ended (successfully or not).
    pub fn is_finished(&self) -> (r: bool)
        ensures
            r == (self.phase() == SessionPhase::Finished),
    {
        self.phase == SessionPhase::Finished
    }

    /// How many batches the run will push in total, once detection ran.
    pub fn batch_count(&self) -> (n: usize)
        ensures
            n == self.batches().len(),
    {
        self.batches.len()
    }

    /// The working manifest, for inspection.
    pub fn manifest(&self) -> (m: &ChangeManifest)
        ensures
            m@ == self.manifest_map(),
            self.wf() ==> m.wf(),
    {
        &self.manifest
    }

    /// The structured outcome of a finished run.
    pub fn result(&self) -> (r: SyncResult)
        requires
            self.wf(),
            self.phase() == SessionPhase::Finished,
        ensures
            r.platform == self.platform(),
            r.success == self.success(),
            r.message@ == self.message(),
            r.items_synced == self.items_synced(),
    {
        SyncResult {
            platform: self.platform,
            success: self.success,
            message: self.message.clone(),
            items_synced: self.items_synced,
        }
    }

    /// The working manifest, to be persisted by the shell after the attempt
    /// (whether it succeeded or failed partway: it reflects exactly the
    /// confirmed batches).
    pub fn into_manifest(self) -> (m: ChangeManifest)
        requires
            self.wf(),
        ensures
            m.wf(),
            m@ == self.manifest_map(),
    {
        self.manifest
    }
}

/// Record one confirmed batch's fingerprints in the working manifest.
fn record_batch(manifest: &mut ChangeManifest, batch: &Vec<SyncItem>)
    requires
        old(manifest).wf(),
    ensures
        final(manifest).wf(),
        final(manifest)@ == insert_batch(old(manifest)@, batch@),
{
    let ghost m0 = manifest@;
    let mut j: usize = 0;
    while j < batch.len()
        invariant
            manifest.wf(),
            j <= batch@.len(),
            manifest@ == insert_batch(m0, batch@.take(j as int)),
        decreases batch@.len() - j,
    {
        let item = &batch[j];
        let key = item.external_id.clone();
        let entry = BookManifestEntry {
            annotation_count: item.annotation_count,
            reading_progress: item.reading_progress,
        };
        manifest.insert(key, entry);
        proof {
            assert(batch@.take(j + 1).drop_last() =~= batch@.take(j as int));
            assert(batch@.take(j + 1).last() == batch@[j as int]);
        }
        j += 1;
    }
    proof {
        assert(batch@.take(batch@.len() as int) =~= batch@);
    }
}

proof fn lemma_pushed_count_step(bv: Seq<Seq<SyncItem>>, k: int)
    requires
        0 <= k < bv.len(),
    ensures
        pushed_count(bv, k + 1) == pushed_count(bv, k) + bv[k].len(),
{
    assert(bv.take(k + 1) =~= bv.take(k).push(bv[k]));
    bv.take(k).lemma_flatten_push(bv[k]);
}

proof fn lemma_pushed_count_mono(bv: Seq<Seq<SyncItem>>, a: int, b: int)
    requires
        0 <= a <= b <= bv.len(),
    ensures
        pushed_count(bv, a) <= pushed_count(bv, b),
    decreases b - a,
{
    if a < b {
        lemma_pushed_count_step(bv, b - 1);
        lemma_pushed_count_mono(bv, a, b - 1);
    }
}

/// Record a finished run's outcome in the state store: a success updates the
/// watermark and count and clears the error; a failure keeps them and stores
/// the error text, as `NeedsAuth` when the text carries the source's
/// authorization markers and as `Error` otherwise.
pub fn apply_result(state: &mut SyncState, result: &SyncResult, now: String)
    requires
        old(state).wf(),
    ensures
        final(state).wf(),
        result.success ==> final(state).record_of(result.platform) == (RecordModel {
            status: SyncPlatformStatus::Success,
            last_sync_at: Option::Some(now@),
            item_count: result.items_synced,
            last_error: Option::None,
        }),
        !result.success && spec_is_auth_failure(result.platform, result.message@)
            ==> final(state).record_of(result.platform) == (RecordModel {
            status: SyncPlatformStatus::NeedsAuth,
            last_error: Option::Some(result.message@),
            ..old(state).record_of(result.platform)
        }),
        !result.success && !spec_is_auth_failure(result.platform, result.message@)
            ==> final(state).record_of(result.platform) == (RecordModel {
            status: SyncPlatformStatus::Error,
            last_error: Option::Some(result.message@),
            ..old(state).record_of(result.platform)
        }),
        forall|q: Platform|
            q.index_spec() != result.platform.index_spec()
                ==> #[trigger] final(state).record_of(q) == old(state).record_of(q),
{
    if result.success {
        state.update_platform_success(result.platform, now, result.items_synced);
    } else {
        let status = classify_failure(result.platform, result.message.as_str());
        if status == SyncPlatformStatus::NeedsAuth {
            state.update_platform_needs_auth(result.platform, result.message.clone());
        } else {
            state.update_platform_error(result.platform, result.message.clone());
        }
    }
}

} // verus!
