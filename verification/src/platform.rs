//! The fixed, closed set of external sources and the per-source sync status.

use vstd::prelude::*;

verus! {

/// Number of supported source platforms.
pub const PLATFORM_COUNT: usize = 10;

/// One external service this engine pulls data from. Immutable, defined at
/// compile time.
#[derive(Clone, Copy, Debug, PartialEq, Eq, Structural)]
pub enum Platform {
    AppleBooks,
    WechatRead,
    Bilibili,
    Kindle,
    SafariBookmarks,
    ChromeBookmarks,
    Douban,
    Zhihu,
    GithubStars,
    Twitter,
}

/// Sync status of one platform. Exactly one instance exists per platform at
/// any time; it is mutated only through `SyncState` methods.
#[derive(Clone, Copy, Debug, PartialEq, Eq, Structural)]
pub enum SyncPlatformStatus {
    Idle,
    Syncing,
    Success,
    Error,
    NeedsAuth,
}

impl Platform {
    /// Position of this platform in the per-platform record vectors.
    pub open spec fn index_spec(self) -> int {
        match self {
            Platform::AppleBooks => 0,
            Platform::WechatRead => 1,
            Platform::Bilibili => 2,
            Platform::Kindle => 3,
            Platform::SafariBookmarks => 4,
            Platform::ChromeBookmarks => 5,
            Platform::Douban => 6,
            Platform::Zhihu => 7,
            Platform::GithubStars => 8,
            Platform::Twitter => 9,
        }
    }

    pub fn index(self) -> (i: usize)
        ensures
            i == self.index_spec(),
            i < PLATFORM_COUNT,
    {
        match self {
            Platform::AppleBooks => 0,
            Platform::WechatRead => 1,
            Platform::Bilibili => 2,
            Platform::Kindle => 3,
            Platform::SafariBookmarks => 4,
            Platform::ChromeBookmarks => 5,
            Platform::Douban => 6,
            Platform::Zhihu => 7,
            Platform::GithubStars => 8,
            Platform::Twitter => 9,
        }
    }

    pub fn from_index(i: usize) -> (p: Platform)
        requires
            i < PLATFORM_COUNT,
        ensures
            p.index_spec() == i,
    {
        if i == 0 {
            Platform::AppleBooks
        } else if i == 1 {
            Platform::WechatRead
        } else if i == 2 {
            Platform::Bilibili
        } else if i == 3 {
            Platform::Kindle
        } else if i == 4 {
            Platform::SafariBookmarks
        } else if i == 5 {
            Platform::ChromeBookmarks
        } else if i == 6 {
            Platform::Douban
        } else if i == 7 {
            Platform::Zhihu
        } else if i == 8 {
            Platform::GithubStars
        } else {
            Platform::Twitter
        }
    }

    /// The sequence of all platforms, ordered by index.
    pub open spec fn all_spec() -> Seq<Platform> {
        seq![
            Platform::AppleBooks,
            Platform::WechatRead,
            Platform::Bilibili,
            Platform::Kindle,
            Platform::SafariBookmarks,
            Platform::ChromeBookmarks,
            Platform::Douban,
            Platform::Zhihu,
            Platform::GithubStars,
            Platform::Twitter,
        ]
    }

    pub fn all() -> (v: Vec<Platform>)
        ensures
            v@ == Platform::all_spec(),
            v@.len() == PLATFORM_COUNT,
    {
        let v = vec![
            Platform::AppleBooks,
            Platform::WechatRead,
            Platform::Bilibili,
            Platform::Kindle,
            Platform::SafariBookmarks,
            Platform::ChromeBookmarks,
            Platform::Douban,
            Platform::Zhihu,
            Platform::GithubStars,
            Platform::Twitter,
        ];
        proof {
            assert(v@ =~= Platform::all_spec());
        }
        v
    }

    /// Whether the source detects changes with the fingerprint-manifest diff.
    /// All other sources use the timestamp-threshold filter against the
    /// backend watermark.
    pub open spec fn uses_fingerprint_manifest_spec(self) -> bool {
        self is AppleBooks
    }

    pub fn uses_fingerprint_manifest(self) -> (r: bool)
        ensures
            r == self.uses_fingerprint_manifest_spec(),
    {
        match self {
            Platform::AppleBooks => true,
            _ => false,
        }
    }
}

pub broadcast proof fn lemma_all_spec_index(i: int)
    requires
        0 <= i < PLATFORM_COUNT,
    ensures
        (#[trigger] Platform::all_spec()[i]).index_spec() == i,
{
}

} // verus!
