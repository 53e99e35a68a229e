//! Scheduling decisions. The shell drives a periodic tick loop; on each tick
//! it asks this module which enabled sources are due, runs them one after
//! another, and records the run time. "Last run" lives only in memory, so
//! after a process restart every source is due on the first tick — a
//! deliberate policy, not an accident.

use vstd::prelude::*;

use crate::platform::{Platform, PLATFORM_COUNT};
use crate::settings::AppSettings;

verus! {

/// Per-source schedule bookkeeping. Times are monotonic seconds handed in by
/// the shell; only their differences matter.
#[derive(Clone, Copy, PartialEq, Eq, Structural)]
pub struct ScheduleEntry {
    pub interval_secs: u64,
    pub last_run: Option<u64>,
}

impl ScheduleEntry {
    /// A source is due when it has never run in this process, or when at
    /// least the configured interval has passed since its last run.
    pub open spec fn spec_is_due(self, now: u64) -> bool {
        match self.last_run {
            Option::None => true,
            Option::Some(last) => last <= now && now - last >= self.interval_secs,
        }
    }

    pub fn is_due(&self, now: u64) -> (r: bool)
        ensures
            r == self.spec_is_due(now),
    {
        match self.last_run {
            None => true,
            Some(last) => last <= now && now - last >= self.interval_secs,
        }
    }
}

/// The scheduler's in-memory clock state: one entry per platform.
pub struct SchedulerState {
    entries: Vec<ScheduleEntry>,
}

impl View for SchedulerState {
    type V = Seq<ScheduleEntry>;

    closed spec fn view(&self) -> Seq<ScheduleEntry> {
        self.entries@
    }
}

impl SchedulerState {
    pub open spec fn wf(self) -> bool {
        self@.len() == PLATFORM_COUNT
    }

    pub open spec fn entry_of(self, p: Platform) -> ScheduleEntry {
        self@[p.index_spec()]
    }

    /// Whether one platform must be run on a tick at time `now`: it is
    /// scheduled at all, enabled in the settings, and due by its entry.
    pub open spec fn spec_due(self, settings: AppSettings, p: Platform, now: u64) -> bool {
        &&& AppSettings::spec_scheduled(p)
        &&& settings.spec_enabled(p)
        &&& self.entry_of(p).spec_is_due(now)
    }

    /// Fresh state: nothing has run yet; every interval comes from the
    /// settings (hours, converted to seconds).
    pub fn new(settings: &AppSettings) -> (s: SchedulerState)
        ensures
            s.wf(),
            forall|p: Platform| #[trigger] s.entry_of(p) == (ScheduleEntry {
                interval_secs: (settings.spec_interval_hours(p) * 3600) as u64,
                last_run: Option::None,
            }),
    {
        let mut entries: Vec<ScheduleEntry> = Vec::new();
        let mut i: usize = 0;
        while i < PLATFORM_COUNT
            invariant
                i <= PLATFORM_COUNT,
                entries@.len() == i,
                forall|j: int|
                    0 <= j < i ==> #[trigger] entries@[j] == (ScheduleEntry {
                        interval_secs: (settings.spec_interval_hours(
                            Platform::all_spec()[j],
                        ) * 3600) as u64,
                        last_run: Option::None,
                    }),
            decreases PLATFORM_COUNT - i,
        {
            let p = Platform::from_index(i);
            let hours = settings.interval_hours(p);
            proof {
                crate::platform::lemma_all_spec_index(i as int);
                assert(Platform::all_spec()[i as int] == p) by {
                    assert(Platform::all_spec()[i as int].index_spec() == p.index_spec());
                    assert(forall|a: Platform, b: Platform|
                        a.index_spec() == b.index_spec() ==> a == b);
                }
            }
            entries.push(ScheduleEntry { interval_secs: hours as u64 * 3600, last_run: None });
            i += 1;
        }
        let s = SchedulerState { entries };
        proof {
            assert forall|p: Platform| #[trigger] s.entry_of(p) == (ScheduleEntry {
                interval_secs: (settings.spec_interval_hours(p) * 3600) as u64,
                last_run: Option::None,
            }) by {
                crate::platform::lemma_all_spec_index(p.index_spec());
                assert(Platform::all_spec()[p.index_spec()].index_spec() == p.index_spec());
                assert(Platform::all_spec()[p.index_spec()] == p);
            }
        }
        s
    }

    /// Apply a live settings change without restarting the loop: intervals
    /// are refreshed, the last-run clocks are kept.
    pub fn apply_settings(&mut self, settings: &AppSettings)
        requires
            old(self).wf(),
        ensures
            final(self).wf(),
            forall|p: Platform| #[trigger] final(self).entry_of(p) == (ScheduleEntry {
                interval_secs: (settings.spec_interval_hours(p) * 3600) as u64,
                last_run: old(self).entry_of(p).last_run,
            }),
    {
        let mut i: usize = 0;
        while i < PLATFORM_COUNT
            invariant
                old(self).wf(),
                self@.len() == PLATFORM_COUNT,
                i <= PLATFORM_COUNT,
                forall|j: int|
                    0 <= j < i ==> #[trigger] self@[j] == (ScheduleEntry {
                        interval_secs: (settings.spec_interval_hours(
                            Platform::all_spec()[j],
                        ) * 3600) as u64,
                        last_run: old(self)@[j].last_run,
                    }),
                forall|j: int| i <= j < PLATFORM_COUNT ==> #[trigger] self@[j] == old(self)@[j],
            decreases PLATFORM_COUNT - i,
        {
            let p = Platform::from_index(i);
            let hours = settings.interval_hours(p);
            proof {
                crate::platform::lemma_all_spec_index(i as int);
                assert(Platform::all_spec()[i as int] == p) by {
                    assert(Platform::all_spec()[i as int].index_spec() == p.index_spec());
                }
            }
            let last = self.entries[i].last_run;
            self.entries[i] = ScheduleEntry { interval_secs: hours as u64 * 3600, last_run: last };
            i += 1;
        }
        proof {
            assert forall|p: Platform| #[trigger] final(self).entry_of(p) == (ScheduleEntry {
                interval_secs: (settings.spec_interval_hours(p) * 3600) as u64,
                last_run: old(self).entry_of(p).last_run,
            }) by {
                crate::platform::lemma_all_spec_index(p.index_spec());
                assert(Platform::all_spec()[p.index_spec()] == p);
            }
        }
    }

    /// Record that a source's run finished at `now`; its next run is due one
    /// interval later.
    pub fn mark_ran(&mut self, p: Platform, now: u64)
        requires
            old(self).wf(),
        ensures
            final(self).wf(),
            final(self).entry_of(p) == (ScheduleEntry {
                last_run: Option::Some(now),
                ..old(self).entry_of(p)
            }),
            forall|q: Platform|
                q.index_spec() != p.index_spec() ==> #[trigger] final(self).entry_of(q)
                    == old(self).entry_of(q),
    {
        let i = p.index();
        let interval = self.entries[i].interval_secs;
        self.entries[i] = ScheduleEntry { interval_secs: interval, last_run: Some(now) };
    }

    /// One tick's decision: the platforms to sync now, in platform order —
    /// exactly the scheduled, enabled, due ones.
    pub fn due_platforms(&self, settings: &AppSettings, now: u64) -> (r: Vec<Platform>)
        requires
            self.wf(),
        ensures
            r@ == Platform::all_spec().filter(
                |p: Platform| self.spec_due(*settings, p, now),
            ),
    {
        let ghost pred = |p: Platform| self.spec_due(*settings, p, now);
        let all = Platform::all();
        let mut r: Vec<Platform> = Vec::new();
        let mut i: usize = 0;
        while i < all.len()
            invariant
                self.wf(),
                all@ == Platform::all_spec(),
                i <= all@.len(),
                r@ == all@.take(i as int).filter(pred),
                pred == (|p: Platform| self.spec_due(*settings, p, now)),
            decreases all@.len() - i,
        {
            let p = all[i];
            let due = AppSettings::scheduled(p) && settings.enabled(p) && {
                let e = &self.entries[p.index()];
                e.is_due(now)
            };
            proof {
                assert(all@.take(i + 1).drop_last() =~= all@.take(i as int));
                assert(all@.take(i + 1).last() == p);
                reveal(Seq::filter);
            }
            if due {
                r.push(p);
            }
            i += 1;
        }
        proof {
            assert(all@.take(all@.len() as int) =~= all@);
        }
        r
    }
}

} // verus!
