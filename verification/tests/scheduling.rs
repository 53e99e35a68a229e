use fountain::paging::{filter_page, take_until_old, PageItem};
use fountain::platform::Platform;
use fountain::schedule::{ScheduleEntry, SchedulerState};
use fountain::settings::AppSettings;
use fountain::state::{SyncState, SyncStateRecord};

#[test]
fn never_run_sources_are_due_immediately() {
    let entry = ScheduleEntry { interval_secs: 3600, last_run: None };
    assert!(entry.is_due(0));
    assert!(entry.is_due(10));
}

#[test]
fn sources_become_due_after_their_interval() {
    let entry = ScheduleEntry { interval_secs: 3600, last_run: Some(1000) };
    assert!(!entry.is_due(1000));
    assert!(!entry.is_due(4599));
    assert!(entry.is_due(4600));
    assert!(entry.is_due(10000));
}

#[test]
fn tick_selects_enabled_due_scheduled_sources_in_order() {
    let mut settings = AppSettings::default();
    settings.apple_books_enabled = true;
    settings.kindle_enabled = true;
    settings.zhihu_enabled = true; // never scheduled: synced on request only
    settings.wechat_read_enabled = false;

    let mut sched = SchedulerState::new(&settings);
    let due = sched.due_platforms(&settings, 0);
    assert_eq!(due, vec![Platform::AppleBooks, Platform::Kindle]);

    // After a run, the source waits out its interval (6 h for this one).
    sched.mark_ran(Platform::AppleBooks, 100);
    let due_again = sched.due_platforms(&settings, 200);
    assert_eq!(due_again, vec![Platform::Kindle]);
    let due_later = sched.due_platforms(&settings, 100 + 6 * 3600);
    assert_eq!(due_later, vec![Platform::AppleBooks, Platform::Kindle]);
}

#[test]
fn settings_change_applies_without_losing_clocks() {
    let mut settings = AppSettings::default();
    settings.apple_books_enabled = true;
    let mut sched = SchedulerState::new(&settings);
    sched.mark_ran(Platform::AppleBooks, 1000);

    // Shorten the interval live: the last-run clock is kept.
    settings.apple_books_interval_hours = 1;
    sched.apply_settings(&settings);
    assert!(!sched.due_platforms(&settings, 1000 + 1800).contains(&Platform::AppleBooks));
    assert!(sched.due_platforms(&settings, 1000 + 3600).contains(&Platform::AppleBooks));
}

#[test]
fn default_settings_match_the_documented_values() {
    let s = AppSettings::default();
    assert_eq!(s.server_url, "");
    assert!(s.apple_books_enabled);
    assert!(!s.wechat_read_enabled);
    assert!(!s.bilibili_enabled);
    assert_eq!(s.apple_books_interval_hours, 6);
    assert_eq!(s.wechat_read_interval_hours, 12);
    assert_eq!(s.bilibili_interval_hours, 6);
    assert!(!s.autostart);
    assert!(s.notifications_enabled);
    assert_eq!(s.apple_books_db_path, None);
}

#[test]
fn state_rebuilds_from_persisted_records() {
    let mut state = SyncState::new();
    state.update_platform_success(Platform::Douban, "2024-02-02T00:00:00Z".to_string(), 4);
    let records: Vec<SyncStateRecord> = state
        .records()
        .iter()
        .map(|r| SyncStateRecord {
            status: r.status,
            last_sync_at: r.last_sync_at.clone(),
            item_count: r.item_count,
            last_error: r.last_error.clone(),
        })
        .collect();

    let restored = SyncState::from_records(records);
    assert_eq!(
        restored.record(Platform::Douban).last_sync_at,
        Some("2024-02-02T00:00:00Z".to_string())
    );
    assert_eq!(restored.record(Platform::Douban).item_count, 4);

    // Too few records: the missing platforms start out fresh.
    let short = SyncState::from_records(Vec::new());
    assert_eq!(short.records().len(), 10);
}

#[test]
fn page_filter_keeps_new_and_undated_available_items() {
    let items = vec![
        PageItem { timestamp: Some(50), available: true },
        PageItem { timestamp: Some(10), available: true }, // old
        PageItem { timestamp: None, available: true },
        PageItem { timestamp: Some(60), available: false }, // deleted upstream
    ];
    let d = filter_page(&items, Some(20));
    assert_eq!(d.keep, vec![true, false, true, false]);
    assert!(d.reached_old);

    let all = filter_page(&items, None);
    assert_eq!(all.keep, vec![true, true, true, false]);
    assert!(!all.reached_old);
}

#[test]
fn take_until_old_cuts_at_the_first_old_item() {
    let items = vec![
        PageItem { timestamp: Some(50), available: true },
        PageItem { timestamp: None, available: true },
        PageItem { timestamp: Some(10), available: true }, // first old one
        PageItem { timestamp: Some(90), available: true }, // not taken: after the cut
    ];
    let d = take_until_old(&items, Some(20));
    assert_eq!(d.keep, vec![true, true, false, false]);
    assert!(d.reached_old);

    let none_old = take_until_old(&items, None);
    assert_eq!(none_old.keep, vec![true, true, true, true]);
    assert!(!none_old.reached_old);
}
