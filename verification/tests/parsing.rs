use fountain::bookmarks::{chrome_timestamp_to_iso, collect_bookmarks, Bookmark, BookmarkNode, Browser};
use fountain::classify::{classify_failure, is_auth_failure, str_contains_sub};
use fountain::clippings::{parse_clippings, parse_meta_line, parse_title_author};
use fountain::cookies::{qr_poll_response, save_bilibili_cookies};
use fountain::hash::{hex_encode, stable_hash_hex};
use fountain::platform::{Platform, SyncPlatformStatus};
use fountain::strutil::{str_eq, trim};
use fountain::text::{synced_message, u32_to_string};
use fountain::time::{format_timestamp_iso, parse_iso_to_timestamp};

#[test]
fn clippings_file_yields_highlights_only() {
    let content = "\u{feff}The Pragmatic Programmer (David Thomas)\n\
- Your Highlight on Location 120-125 | Added on Monday, January 1, 2024 12:00:00\n\
\n\
Care about your craft.\n\
==========\n\
The Pragmatic Programmer (David Thomas)\n\
- Your Note on Location 130 | Added on Monday, January 1, 2024 12:05:00\n\
\n\
remember this\n\
==========\n\
Untitled Scribbles\n\
- Your Bookmark on Location 200 | Added on Tuesday, January 2, 2024 09:00:00\n\
\n\
==========\n\
Dune (Frank Herbert)\n\
- Your Highlight on Location 30-31 | Added on Wednesday, January 3, 2024 08:30:00\n\
\n\
Fear is the mind-killer.\n\
Fear is the little-death.\n\
==========";

    let clippings = parse_clippings(content);
    assert_eq!(clippings.len(), 2);

    assert_eq!(clippings[0].book_title, "The Pragmatic Programmer");
    assert_eq!(clippings[0].author, Some("David Thomas".to_string()));
    assert_eq!(clippings[0].location, Some("Location 120-125".to_string()));
    assert_eq!(clippings[0].added_at, Some("2024-01-01T12:00:00Z".to_string()));
    assert_eq!(clippings[0].text, "Care about your craft.");

    assert_eq!(clippings[1].book_title, "Dune");
    assert_eq!(clippings[1].author, Some("Frank Herbert".to_string()));
    assert_eq!(
        clippings[1].text,
        "Fear is the mind-killer. Fear is the little-death."
    );
    assert_eq!(clippings[1].added_at, Some("2024-01-03T08:30:00Z".to_string()));
}

#[test]
fn title_line_with_author_splits() {
    let (title, author) = parse_title_author("Dune (Frank Herbert)");
    assert_eq!(title, "Dune");
    assert_eq!(author, Some("Frank Herbert".to_string()));
}

#[test]
fn title_line_without_author_is_all_title() {
    let (title, author) = parse_title_author("  Meditations  ");
    assert_eq!(title, "Meditations");
    assert_eq!(author, None);

    let (title2, author2) = parse_title_author("f(x) notes");
    assert_eq!(title2, "f(x) notes");
    assert_eq!(author2, None);
}

#[test]
fn meta_line_extracts_location_and_date() {
    let (location, added_at) = parse_meta_line(
        "- Your Highlight on Location 234-236 | Added on Monday, January 1, 2024 12:00:00",
    );
    assert_eq!(location, Some("Location 234-236".to_string()));
    assert_eq!(added_at, Some("2024-01-01T12:00:00Z".to_string()));
}

#[test]
fn meta_line_without_markers_yields_nothing() {
    let (location, added_at) = parse_meta_line("- Your Highlight on Page 12");
    assert_eq!(location, None);
    assert_eq!(added_at, None);
}

#[test]
fn hex_encode_two_digits_per_byte() {
    assert_eq!(hex_encode(&[]), "");
    assert_eq!(hex_encode(&[0x00, 0xff, 0x1a]), "00ff1a");
}

#[test]
fn stable_hash_is_the_truncated_sha256() {
    // SHA-256 of the empty string starts with e3b0c44298fc1c14.
    assert_eq!(stable_hash_hex(""), "e3b0c44298fc1c14");
    // Deterministic and input-dependent.
    assert_eq!(stable_hash_hex("Dune"), stable_hash_hex("Dune"));
    assert_ne!(stable_hash_hex("Dune"), stable_hash_hex("Dune2"));
    assert_eq!(stable_hash_hex("Dune").len(), 16);
}

#[test]
fn rfc3339_round_trips_through_epoch_seconds() {
    let ts = parse_iso_to_timestamp("2024-01-01T00:00:00Z");
    assert_eq!(ts, Some(1704067200));
    assert_eq!(format_timestamp_iso(1704067200), "2024-01-01T00:00:00Z");
    assert_eq!(parse_iso_to_timestamp("not a date"), None);
}

#[test]
fn chrome_times_convert_from_the_1601_epoch() {
    // 2024-01-01T00:00:00Z: unix 1704067200, plus the 1601 offset, in micros.
    let micros = (1704067200i64 + 11_644_473_600) * 1_000_000;
    assert_eq!(chrome_timestamp_to_iso(micros), "2024-01-01T00:00:00Z");
    // Times at or before the Unix epoch give no timestamp text.
    assert_eq!(chrome_timestamp_to_iso(0), "");
    assert_eq!(chrome_timestamp_to_iso(11_644_473_600 * 1_000_000), "");
}

#[test]
fn auth_markers_differ_per_source() {
    assert!(is_auth_failure(Platform::WechatRead, "WeChat Read auth expired (401)"));
    assert!(is_auth_failure(Platform::Bilibili, "Bilibili auth expired — not_login"));
    assert!(is_auth_failure(Platform::Douban, "Douban API error: 403"));
    assert!(is_auth_failure(Platform::GithubStars, "GitHub token invalid or expired"));
    // A local file source never classifies as an authorization failure.
    assert!(!is_auth_failure(Platform::Kindle, "error 401"));
    assert!(!is_auth_failure(Platform::AppleBooks, "auth expired"));
    // Plain transport errors stay errors.
    assert!(!is_auth_failure(Platform::Zhihu, "connection reset"));
}

#[test]
fn failures_classify_into_needs_auth_or_error() {
    assert_eq!(
        classify_failure(Platform::Twitter, "Twitter auth expired (403)"),
        SyncPlatformStatus::NeedsAuth
    );
    assert_eq!(
        classify_failure(Platform::Twitter, "Twitter timeline error: 500"),
        SyncPlatformStatus::Error
    );
    assert_eq!(
        classify_failure(Platform::SafariBookmarks, "401 unauthorized"),
        SyncPlatformStatus::Error
    );
}

#[test]
fn substring_search_finds_inner_text() {
    assert!(str_contains_sub("ebook sync error 401: denied", "401"));
    assert!(!str_contains_sub("ebook sync error 200", "401"));
    assert!(str_contains_sub("anything", ""));
    assert!(!str_contains_sub("ab", "abc"));
}

#[test]
fn bookmark_walk_skips_script_links_and_hidden_roots() {
    let tree = BookmarkNode::Folder {
        name: "BookmarksBar".to_string(),
        children: vec![
            BookmarkNode::Link {
                url: "https://example.org".to_string(),
                title: "Example".to_string(),
                added_at: Some("2024-01-01T00:00:00Z".to_string()),
            },
            BookmarkNode::Link {
                url: "javascript:void(0)".to_string(),
                title: "Bookmarklet".to_string(),
                added_at: None,
            },
            BookmarkNode::Folder {
                name: "Reading".to_string(),
                children: vec![
                    BookmarkNode::Folder {
                        name: "Sci-Fi".to_string(),
                        children: vec![BookmarkNode::Link {
                            url: "https://example.org/dune".to_string(),
                            title: "".to_string(),
                            added_at: None,
                        }],
                    },
                ],
            },
        ],
    };

    let mut results: Vec<Bookmark> = Vec::new();
    collect_bookmarks(Browser::Safari, &tree, None, &mut results);

    assert_eq!(results.len(), 2);
    // The hidden root contributes no folder path.
    assert_eq!(results[0].url, "https://example.org");
    assert_eq!(results[0].title, "Example");
    assert_eq!(results[0].folder, None);
    // Nested folders join with a slash; an empty title falls back to the url.
    assert_eq!(results[1].url, "https://example.org/dune");
    assert_eq!(results[1].title, "https://example.org/dune");
    assert_eq!(results[1].folder, Some("Reading/Sci-Fi".to_string()));
}

#[test]
fn chrome_walk_skips_internal_pages_but_keeps_named_roots() {
    let tree = BookmarkNode::Folder {
        name: "bookmark_bar".to_string(),
        children: vec![
            BookmarkNode::Link {
                url: "chrome://settings".to_string(),
                title: "Settings".to_string(),
                added_at: None,
            },
            BookmarkNode::Link {
                url: "https://example.org".to_string(),
                title: "Example".to_string(),
                added_at: None,
            },
        ],
    };

    let mut results: Vec<Bookmark> = Vec::new();
    collect_bookmarks(Browser::Chrome, &tree, None, &mut results);
    assert_eq!(results.len(), 1);
    assert_eq!(results[0].folder, Some("bookmark_bar".to_string()));
}

#[test]
fn qr_login_cookies_are_all_or_nothing() {
    let full = vec![
        "SESSDATA=abc123; Path=/; HttpOnly".to_string(),
        "bili_jct=def456; Path=/".to_string(),
        "buvid3=ghi789".to_string(),
        "unrelated=1".to_string(),
    ];
    let cookies = save_bilibili_cookies(&full).expect("all three cookies present");
    assert_eq!(cookies.sessdata, "abc123");
    assert_eq!(cookies.bili_jct, "def456");
    assert_eq!(cookies.buvid3, "ghi789");

    let partial = vec!["SESSDATA=abc123; Path=/".to_string()];
    assert!(save_bilibili_cookies(&partial).is_err());
}

#[test]
fn qr_poll_codes_classify() {
    let ok = qr_poll_response(0, "success".to_string());
    assert!(ok.is_success);
    assert!(!ok.is_expired);
    let expired = qr_poll_response(86038, "expired".to_string());
    assert!(!expired.is_success);
    assert!(expired.is_expired);
    let waiting = qr_poll_response(86090, "scanned, waiting".to_string());
    assert!(!waiting.is_success);
    assert!(!waiting.is_expired);
}

#[test]
fn text_helpers_render_decimals_and_messages() {
    assert_eq!(u32_to_string(0), "0");
    assert_eq!(u32_to_string(42), "42");
    assert_eq!(u32_to_string(4294967295), "4294967295");
    assert_eq!(synced_message(0), "No changes detected");
    assert_eq!(synced_message(7), "Synced 7 items");
}

#[test]
fn trim_and_equality_work_charwise() {
    assert_eq!(trim("  a b \r\n"), "a b");
    assert_eq!(trim("\u{feff}x"), "x");
    assert_eq!(trim("   "), "");
    assert!(str_eq("abc", "abc"));
    assert!(!str_eq("abc", "abd"));
}
