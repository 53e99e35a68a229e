use fountain::detect::{detect_changed_items, filter_by_timestamp, SyncItem};
use fountain::manifest::{BookManifestEntry, ChangeManifest};
use fountain::platform::{Platform, SyncPlatformStatus, PLATFORM_COUNT};
use fountain::session::{apply_result, SyncSession};
use fountain::state::SyncState;

fn item(id: &str, ts: Option<i64>, count: usize, progress: u32) -> SyncItem {
    SyncItem {
        external_id: id.to_string(),
        timestamp: ts,
        annotation_count: count,
        reading_progress: progress,
        payload: format!("payload-{}", id),
    }
}

#[test]
fn first_sync_pushes_all_items_in_one_batch() {
    // Source never synced before: no watermark, empty manifest, 3 items.
    let mut state = SyncState::new();
    state.update_platform_status(Platform::AppleBooks, SyncPlatformStatus::Syncing);

    let mut session = SyncSession::new(Platform::AppleBooks, 50, ChangeManifest::new());
    session.on_items_fetched(vec![
        item("a", None, 1, 100),
        item("b", None, 0, 200),
        item("c", None, 2, 300),
    ]);
    session.on_setup_complete("source-1".to_string());
    session.on_status(None);

    assert!(!session.is_finished());
    assert_eq!(session.batch_count(), 1);
    assert_eq!(session.current_batch().len(), 3);
    session.on_batch_pushed();
    assert!(session.is_finished());

    let result = session.result();
    assert!(result.success);
    assert_eq!(result.items_synced, 3);
    assert_eq!(result.message, "Synced 3 items");

    apply_result(&mut state, &result, "2024-06-01T00:00:00Z".to_string());
    let rec = state.record(Platform::AppleBooks);
    assert_eq!(rec.status, SyncPlatformStatus::Success);
    assert_eq!(rec.last_sync_at, Some("2024-06-01T00:00:00Z".to_string()));
    assert_eq!(rec.item_count, 3);
    assert_eq!(rec.last_error, None);

    // All three items are now fingerprinted in the manifest.
    let manifest = session.into_manifest();
    assert_eq!(manifest.len(), 3);
    assert_eq!(
        manifest.get(&"a".to_string()),
        Some(&BookManifestEntry { annotation_count: 1, reading_progress: 100 })
    );
}

#[test]
fn no_changes_still_updates_watermark() {
    // The manifest already fingerprints the only item: zero changed items,
    // but the run is a confirmed success and the watermark moves.
    let mut manifest = ChangeManifest::new();
    manifest.insert(
        "a".to_string(),
        BookManifestEntry { annotation_count: 1, reading_progress: 100 },
    );

    let mut state = SyncState::new();
    state.update_platform_status(Platform::AppleBooks, SyncPlatformStatus::Syncing);

    let mut session = SyncSession::new(Platform::AppleBooks, 50, manifest);
    session.on_items_fetched(vec![item("a", None, 1, 100)]);
    session.on_setup_complete("source-1".to_string());
    session.on_status(None);

    assert!(session.is_finished());
    let result = session.result();
    assert!(result.success);
    assert_eq!(result.items_synced, 0);
    assert_eq!(result.message, "No changes detected");

    apply_result(&mut state, &result, "2024-06-02T00:00:00Z".to_string());
    let rec = state.record(Platform::AppleBooks);
    assert_eq!(rec.status, SyncPlatformStatus::Success);
    assert_eq!(rec.last_sync_at, Some("2024-06-02T00:00:00Z".to_string()));
    assert_eq!(rec.item_count, 0);
}

#[test]
fn push_failure_keeps_only_completed_batches() {
    // Five changed items, batch size two: three batches. The second push
    // fails, so the manifest reflects exactly the first batch, and the
    // status becomes Error.
    let mut state = SyncState::new();
    state.update_platform_status(Platform::AppleBooks, SyncPlatformStatus::Syncing);

    let mut session = SyncSession::new(Platform::AppleBooks, 2, ChangeManifest::new());
    session.on_items_fetched(vec![
        item("a", None, 1, 0),
        item("b", None, 1, 0),
        item("c", None, 1, 0),
        item("d", None, 1, 0),
        item("e", None, 1, 0),
    ]);
    session.on_setup_complete("source-1".to_string());
    session.on_status(None);
    assert_eq!(session.batch_count(), 3);

    session.on_batch_pushed();
    assert!(!session.is_finished());
    session.on_failure("ebook sync error 500: backend unavailable".to_string());
    assert!(session.is_finished());

    let result = session.result();
    assert!(!result.success);
    assert_eq!(result.items_synced, 0);

    apply_result(&mut state, &result, "2024-06-03T00:00:00Z".to_string());
    let rec = state.record(Platform::AppleBooks);
    assert_eq!(rec.status, SyncPlatformStatus::Error);
    assert_eq!(
        rec.last_error,
        Some("ebook sync error 500: backend unavailable".to_string())
    );
    // The failure does not move the watermark.
    assert_eq!(rec.last_sync_at, None);

    let manifest = session.into_manifest();
    assert_eq!(manifest.len(), 2);
    assert!(manifest.get(&"a".to_string()).is_some());
    assert!(manifest.get(&"b".to_string()).is_some());
    assert!(manifest.get(&"c".to_string()).is_none());
    assert!(manifest.get(&"d".to_string()).is_none());
    assert!(manifest.get(&"e".to_string()).is_none());
}

#[test]
fn authorization_failure_becomes_needs_auth_without_manifest_update() {
    let mut state = SyncState::new();
    state.update_platform_status(Platform::WechatRead, SyncPlatformStatus::Syncing);

    let mut session = SyncSession::new(Platform::WechatRead, 20, ChangeManifest::new());
    session.on_items_fetched(vec![item("a", Some(100), 0, 0)]);
    session.on_setup_complete("source-2".to_string());
    session.on_status(None);
    assert!(!session.is_finished());

    session.on_failure("WeChat Read auth expired (401)".to_string());
    let result = session.result();
    assert!(!result.success);

    apply_result(&mut state, &result, "2024-06-04T00:00:00Z".to_string());
    let rec = state.record(Platform::WechatRead);
    assert_eq!(rec.status, SyncPlatformStatus::NeedsAuth);
    assert_eq!(rec.last_error, Some("WeChat Read auth expired (401)".to_string()));

    // No batch was confirmed, so nothing entered the manifest.
    let manifest = session.into_manifest();
    assert_eq!(manifest.len(), 0);
}

#[test]
fn startup_reset_converts_only_syncing_to_idle() {
    let mut state = SyncState::new();
    state.update_platform_status(Platform::AppleBooks, SyncPlatformStatus::Syncing);
    state.update_platform_success(Platform::Bilibili, "2024-01-01T00:00:00Z".to_string(), 7);
    state.update_platform_error(Platform::Kindle, "boom".to_string());
    state.update_platform_needs_auth(Platform::Zhihu, "401".to_string());

    state.reset_stale_sync_state();

    assert_eq!(
        state.record(Platform::AppleBooks).status,
        SyncPlatformStatus::Idle
    );
    assert_eq!(
        state.record(Platform::Bilibili).status,
        SyncPlatformStatus::Success
    );
    assert_eq!(
        state.record(Platform::Bilibili).last_sync_at,
        Some("2024-01-01T00:00:00Z".to_string())
    );
    assert_eq!(state.record(Platform::Bilibili).item_count, 7);
    assert_eq!(state.record(Platform::Kindle).status, SyncPlatformStatus::Error);
    assert_eq!(state.record(Platform::Kindle).last_error, Some("boom".to_string()));
    assert_eq!(state.record(Platform::Zhihu).status, SyncPlatformStatus::NeedsAuth);
    assert_eq!(state.record(Platform::Twitter).status, SyncPlatformStatus::Idle);
}

#[test]
fn fingerprint_diff_is_order_independent() {
    let mut manifest = ChangeManifest::new();
    manifest.insert(
        "a".to_string(),
        BookManifestEntry { annotation_count: 1, reading_progress: 100 },
    );
    manifest.insert(
        "b".to_string(),
        BookManifestEntry { annotation_count: 2, reading_progress: 200 },
    );

    let x = item("a", None, 1, 100); // unchanged
    let y = item("b", None, 3, 200); // changed annotation count
    let z = item("c", None, 0, 0); // new

    let one = detect_changed_items(&manifest, &vec![x.clone(), y.clone(), z.clone()]);
    let two = detect_changed_items(&manifest, &vec![z, y, x]);

    let mut ids_one: Vec<String> = one.iter().map(|i| i.external_id.clone()).collect();
    let mut ids_two: Vec<String> = two.iter().map(|i| i.external_id.clone()).collect();
    ids_one.sort();
    ids_two.sort();
    assert_eq!(ids_one, vec!["b".to_string(), "c".to_string()]);
    assert_eq!(ids_one, ids_two);
}

#[test]
fn fingerprint_tolerance_ignores_small_progress_moves() {
    let mut manifest = ChangeManifest::new();
    manifest.insert(
        "a".to_string(),
        BookManifestEntry { annotation_count: 0, reading_progress: 500 },
    );

    // Within tolerance (5 thousandths): unchanged.
    let close = detect_changed_items(&manifest, &vec![item("a", None, 0, 505)]);
    assert_eq!(close.len(), 0);

    // Beyond tolerance: changed.
    let far = detect_changed_items(&manifest, &vec![item("a", None, 0, 506)]);
    assert_eq!(far.len(), 1);
}

#[test]
fn timestamp_filter_without_watermark_includes_everything() {
    let items = vec![
        item("a", Some(10), 0, 0),
        item("b", None, 0, 0),
        item("c", Some(30), 0, 0),
    ];
    let all = filter_by_timestamp(None, &items);
    assert_eq!(all.len(), 3);
}

#[test]
fn timestamp_filter_keeps_newer_and_undated_items() {
    let items = vec![
        item("old", Some(10), 0, 0),
        item("boundary", Some(20), 0, 0),
        item("new", Some(21), 0, 0),
        item("undated", None, 0, 0),
    ];
    let kept = filter_by_timestamp(Some(20), &items);
    let ids: Vec<&str> = kept.iter().map(|i| i.external_id.as_str()).collect();
    assert_eq!(ids, vec!["new", "undated"]);
}

#[test]
fn batches_cover_the_filtered_set_exactly_once() {
    let mut state = SyncState::new();
    state.update_platform_status(Platform::Kindle, SyncPlatformStatus::Syncing);

    let mut session = SyncSession::new(Platform::Kindle, 2, ChangeManifest::new());
    let items: Vec<SyncItem> = (0..5).map(|i| item(&format!("i{}", i), None, 0, 0)).collect();
    session.on_items_fetched(items);
    session.on_setup_complete("source-3".to_string());
    session.on_status(None);

    // 5 items, batch size 2: batches of 2, 2, 1.
    assert_eq!(session.batch_count(), 3);
    let mut seen: Vec<String> = Vec::new();
    let mut sizes: Vec<usize> = Vec::new();
    while !session.is_finished() {
        let batch = session.current_batch();
        sizes.push(batch.len());
        for it in batch.iter() {
            seen.push(it.external_id.clone());
        }
        session.on_batch_pushed();
    }
    assert_eq!(sizes, vec![2, 2, 1]);
    assert_eq!(seen, vec!["i0", "i1", "i2", "i3", "i4"]);
    assert_eq!(session.result().items_synced, 5);
}

#[test]
fn state_has_one_record_per_platform() {
    let state = SyncState::new();
    assert_eq!(state.records().len(), PLATFORM_COUNT);
    for p in Platform::all() {
        assert_eq!(state.record(p).status, SyncPlatformStatus::Idle);
        assert_eq!(state.record(p).last_sync_at, None);
        assert_eq!(state.record(p).item_count, 0);
    }
}

#[test]
fn manifest_insert_replaces_equal_keys() {
    let mut m = ChangeManifest::new();
    m.insert("k".to_string(), BookManifestEntry { annotation_count: 1, reading_progress: 10 });
    m.insert("k".to_string(), BookManifestEntry { annotation_count: 2, reading_progress: 20 });
    assert_eq!(m.len(), 1);
    assert_eq!(
        m.get(&"k".to_string()),
        Some(&BookManifestEntry { annotation_count: 2, reading_progress: 20 })
    );
    assert_eq!(m.get(&"other".to_string()), None);
}

#[test]
fn manifest_rebuild_lets_a_later_duplicate_win() {
    let m = ChangeManifest::from_entries(vec![
        ("k".to_string(), BookManifestEntry { annotation_count: 1, reading_progress: 10 }),
        ("k".to_string(), BookManifestEntry { annotation_count: 2, reading_progress: 20 }),
    ]);
    assert_eq!(m.len(), 1);
    assert_eq!(m.get(&"k".to_string()).unwrap().annotation_count, 2);
}

#[test]
fn items_filling_the_batch_size_exactly_make_one_full_batch() {
    let mut session = SyncSession::new(Platform::Kindle, 4, ChangeManifest::new());
    let items: Vec<SyncItem> = (0..4).map(|i| item(&format!("i{}", i), None, 0, 0)).collect();
    session.on_items_fetched(items);
    session.on_setup_complete("source-4".to_string());
    session.on_status(None);
    assert_eq!(session.batch_count(), 1);
    assert_eq!(session.current_batch().len(), 4);
    session.on_batch_pushed();
    assert!(session.is_finished());
    assert_eq!(session.result().items_synced, 4);
}

#[test]
fn empty_fetch_finishes_with_zero_items() {
    let mut session = SyncSession::new(Platform::Zhihu, 50, ChangeManifest::new());
    session.on_items_fetched(Vec::new());
    session.on_setup_complete("source-5".to_string());
    session.on_status(Some(100));
    assert!(session.is_finished());
    let result = session.result();
    assert!(result.success);
    assert_eq!(result.items_synced, 0);
}
