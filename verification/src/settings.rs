//! User-facing settings: backend address, per-source enabled flags and sync
//! intervals. The shell persists these and hands them to the engine whole;
//! a live settings change replaces the value between scheduler ticks.

use vstd::prelude::*;

use crate::platform::Platform;

verus! {

pub struct AppSettings {
    pub server_url: String,
    pub api_key: String,
    pub apple_books_enabled: bool,
    pub wechat_read_enabled: bool,
    pub bilibili_enabled: bool,
    pub kindle_enabled: bool,
    pub safari_bookmarks_enabled: bool,
    pub chrome_bookmarks_enabled: bool,
    pub douban_enabled: bool,
    pub zhihu_enabled: bool,
    pub github_stars_enabled: bool,
    pub twitter_enabled: bool,
    pub apple_books_interval_hours: u32,
    pub wechat_read_interval_hours: u32,
    pub bilibili_interval_hours: u32,
    pub kindle_interval_hours: u32,
    pub bookmarks_interval_hours: u32,
    pub autostart: bool,
    pub notifications_enabled: bool,
    pub apple_books_db_path: Option<String>,
    pub kindle_clippings_path: Option<String>,
    pub safari_bookmarks_path: Option<String>,
    pub chrome_bookmarks_path: Option<String>,
}

impl AppSettings {
    pub open spec fn spec_enabled(self, p: Platform) -> bool {
        match p {
            Platform::AppleBooks => self.apple_books_enabled,
            Platform::WechatRead => self.wechat_read_enabled,
            Platform::Bilibili => self.bilibili_enabled,
            Platform::Kindle => self.kindle_enabled,
            Platform::SafariBookmarks => self.safari_bookmarks_enabled,
            Platform::ChromeBookmarks => self.chrome_bookmarks_enabled,
            Platform::Douban => self.douban_enabled,
            Platform::Zhihu => self.zhihu_enabled,
            Platform::GithubStars => self.github_stars_enabled,
            Platform::Twitter => self.twitter_enabled,
        }
    }

    pub fn enabled(&self, p: Platform) -> (r: bool)
        ensures
            r == self.spec_enabled(p),
    {
        match p {
            Platform::AppleBooks => self.apple_books_enabled,
            Platform::WechatRead => self.wechat_read_enabled,
            Platform::Bilibili => self.bilibili_enabled,
            Platform::Kindle => self.kindle_enabled,
            Platform::SafariBookmarks => self.safari_bookmarks_enabled,
            Platform::ChromeBookmarks => self.chrome_bookmarks_enabled,
            Platform::Douban => self.douban_enabled,
            Platform::Zhihu => self.zhihu_enabled,
            Platform::GithubStars => self.github_stars_enabled,
            Platform::Twitter => self.twitter_enabled,
        }
    }

    /// Whether the scheduler runs this source periodically. The remaining
    /// sources are synced only on explicit user request.
    pub open spec fn spec_scheduled(p: Platform) -> bool {
        match p {
            Platform::AppleBooks => true,
            Platform::WechatRead => true,
            Platform::Bilibili => true,
            Platform::Kindle => true,
            Platform::SafariBookmarks => true,
            Platform::ChromeBookmarks => true,
            _ => false,
        }
    }

    pub fn scheduled(p: Platform) -> (r: bool)
        ensures
            r == AppSettings::spec_scheduled(p),
    {
        match p {
            Platform::AppleBooks => true,
            Platform::WechatRead => true,
            Platform::Bilibili => true,
            Platform::Kindle => true,
            Platform::SafariBookmarks => true,
            Platform::ChromeBookmarks => true,
            _ => false,
        }
    }

    /// Sync interval in hours for the scheduled sources; both browser
    /// bookmark sources share one interval. Sources that are never scheduled
    /// report 0.
    pub open spec fn spec_interval_hours(self, p: Platform) -> u32 {
        match p {
            Platform::AppleBooks => self.apple_books_interval_hours,
            Platform::WechatRead => self.wechat_read_interval_hours,
            Platform::Bilibili => self.bilibili_interval_hours,
            Platform::Kindle => self.kindle_interval_hours,
            Platform::SafariBookmarks => self.bookmarks_interval_hours,
            Platform::ChromeBookmarks => self.bookmarks_interval_hours,
            _ => 0,
        }
    }

    pub fn interval_hours(&self, p: Platform) -> (r: u32)
        ensures
            r == self.spec_interval_hours(p),
    {
        match p {
            Platform::AppleBooks => self.apple_books_interval_hours,
            Platform::WechatRead => self.wechat_read_interval_hours,
            Platform::Bilibili => self.bilibili_interval_hours,
            Platform::Kindle => self.kindle_interval_hours,
            Platform::SafariBookmarks => self.bookmarks_interval_hours,
            Platform::ChromeBookmarks => self.bookmarks_interval_hours,
            _ => 0,
        }
    }
}

impl Default for AppSettings {
    fn default() -> (s: AppSettings)
        ensures
            s.server_url@ == Seq::<char>::empty(),
            s.api_key@ == Seq::<char>::empty(),
            s.apple_books_enabled == true,
            s.wechat_read_enabled == false,
            s.bilibili_enabled == false,
            s.kindle_enabled == false,
            s.safari_bookmarks_enabled == false,
            s.chrome_bookmarks_enabled == false,
            s.douban_enabled == false,
            s.zhihu_enabled == false,
            s.github_stars_enabled == false,
            s.twitter_enabled == false,
            s.apple_books_interval_hours == 6,
            s.wechat_read_interval_hours == 12,
            s.bilibili_interval_hours == 6,
            s.kindle_interval_hours == 12,
            s.bookmarks_interval_hours == 12,
            s.autostart == false,
            s.notifications_enabled == true,
            s.apple_books_db_path is None,
            s.kindle_clippings_path is None,
            s.safari_bookmarks_path is None,
            s.chrome_bookmarks_path is None,
    {
        AppSettings {
            server_url: String::new(),
            api_key: String::new(),
            apple_books_enabled: true,
            wechat_read_enabled: false,
            bilibili_enabled: false,
            kindle_enabled: false,
            safari_bookmarks_enabled: false,
            chrome_bookmarks_enabled: false,
            douban_enabled: false,
            zhihu_enabled: false,
            github_stars_enabled: false,
            twitter_enabled: false,
            apple_books_interval_hours: 6,
            wechat_read_interval_hours: 12,
            bilibili_interval_hours: 6,
            kindle_interval_hours: 12,
            bookmarks_interval_hours: 12,
            autostart: false,
            notifications_enabled: true,
            apple_books_db_path: None,
            kindle_clippings_path: None,
            safari_bookmarks_path: None,
            chrome_bookmarks_path: None,
        }
    }
}

/// Outcome of a connectivity probe against the backend, shown in the shell's
/// settings screen.
pub struct ConnectionTestResult {
    pub ok: bool,
    pub message: String,
}

} // verus!
