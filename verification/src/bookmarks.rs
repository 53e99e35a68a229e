//! Browser bookmark collection. The shell reads each browser's bookmark
//! store and hands the engine a plain tree of folders and links; walking the
//! tree, skipping non-web links, and building folder paths is verified here.

use vstd::prelude::*;

use vstd::string::StrSliceExecFns;
use vstd::string::StringExecFns;

use crate::strutil::opt_str_view;
use crate::time::{format_timestamp_iso, iso_of_epoch};

verus! {

/// Which browser a bookmark store came from. The two differ in which links
/// are skipped and which root folder names are hidden.
#[derive(Clone, Copy, Debug, PartialEq, Eq, Structural)]
pub enum Browser {
    Safari,
    Chrome,
}

/// One bookmark, ready to push.
pub struct Bookmark {
    pub url: String,
    pub title: String,
    pub folder: Option<String>,
    pub added_at: Option<String>,
}

pub struct BookmarkModel {
    pub url: Seq<char>,
    pub title: Seq<char>,
    pub folder: Option<Seq<char>>,
    pub added_at: Option<Seq<char>>,
}

impl View for Bookmark {
    type V = BookmarkModel;

    open spec fn view(&self) -> BookmarkModel {
        BookmarkModel {
            url: self.url@,
            title: self.title@,
            folder: opt_str_view(self.folder),
            added_at: opt_str_view(self.added_at),
        }
    }
}

/// A browser's bookmark tree, reduced to plain values by the shell.
pub enum BookmarkNode {
    Link { url: String, title: String, added_at: Option<String> },
    Folder { name: String, children: Vec<BookmarkNode> },
}

pub open spec fn starts_with(s: Seq<char>, prefix: Seq<char>) -> bool {
    prefix.len() <= s.len() && s.take(prefix.len() as int) == prefix
}

/// Links that are never pushed: empty addresses, script links, and for
/// Chrome the browser's own internal pages.
pub open spec fn spec_skip_url(browser: Browser, url: Seq<char>) -> bool {
    ||| url.len() == 0
    ||| starts_with(url, "javascript:"@)
    ||| (browser is Chrome && starts_with(url, "chrome:"@))
}

/// Root folder names a browser hides: their children keep no folder path.
pub open spec fn spec_hidden_root(browser: Browser, name: Seq<char>) -> bool {
    match browser {
        Browser::Safari => name.len() == 0 || name == "BookmarksBar"@ || name
            == "BookmarksMenu"@,
        Browser::Chrome => name.len() == 0,
    }
}

/// The folder path of a folder's children: the parent path extended by the
/// folder name, with empty names skipped and hidden roots producing no path.
pub open spec fn spec_child_path(
    browser: Browser,
    parent: Option<Seq<char>>,
    name: Seq<char>,
) -> Option<Seq<char>> {
    match parent {
        Option::None => if spec_hidden_root(browser, name) {
            Option::None
        } else {
            Option::Some(name)
        },
        Option::Some(p) => if name.len() == 0 {
            Option::Some(p)
        } else {
            Option::Some(p + "/"@ + name)
        },
    }
}

/// Every bookmark below one node, in tree order.
pub open spec fn spec_collect(
    browser: Browser,
    node: BookmarkNode,
    folder: Option<Seq<char>>,
) -> Seq<BookmarkModel>
    decreases node,
{
    match node {
        BookmarkNode::Link { url, title, added_at } => {
            if spec_skip_url(browser, url@) {
                Seq::empty()
            } else {
                seq![
                    BookmarkModel {
                        url: url@,
                        title: if title@.len() == 0 {
                            url@
                        } else {
                            title@
                        },
                        folder,
                        added_at: opt_str_view(added_at),
                    },
                ]
            }
        },
        BookmarkNode::Folder { name, children } => spec_collect_children(
            browser,
            children@,
            spec_child_path(browser, folder, name@),
        ),
    }
}

pub open spec fn spec_collect_children(
    browser: Browser,
    nodes: Seq<BookmarkNode>,
    folder: Option<Seq<char>>,
) -> Seq<BookmarkModel>
    decreases nodes,
{
    if nodes.len() == 0 {
        Seq::empty()
    } else {
        spec_collect_children(browser, nodes.drop_last(), folder) + spec_collect(
            browser,
            nodes.last(),
            folder,
        )
    }
}

fn starts_with_exec(s: &str, prefix: &str) -> (r: bool)
    ensures
        r == starts_with(s@, prefix@),
{
    let n = s.unicode_len();
    let m = prefix.unicode_len();
    if m > n {
        return false;
    }
    let mut k: usize = 0;
    while k < m
        invariant
            m <= n,
            n == s@.len(),
            m == prefix@.len(),
            k <= m,
            forall|j: int| 0 <= j < k ==> s@[j] == prefix@[j],
        decreases m - k,
    {
        if s.get_char(k) != prefix.get_char(k) {
            proof {
                assert(s@.take(m as int)[k as int] == s@[k as int]);
            }
            return false;
        }
        k += 1;
    }
    proof {
        assert(s@.take(m as int) =~= prefix@);
    }
    true
}

fn skip_url(browser: Browser, url: &str) -> (r: bool)
    ensures
        r == spec_skip_url(browser, url@),
{
    proof {
        reveal_strlit("javascript:");
        reveal_strlit("chrome:");
    }
    url.unicode_len() == 0 || starts_with_exec(url, "javascript:") || (browser == Browser::Chrome
        && starts_with_exec(url, "chrome:"))
}

fn hidden_root(browser: Browser, name: &str) -> (r: bool)
    ensures
        r == spec_hidden_root(browser, name@),
{
    proof {
        reveal_strlit("BookmarksBar");
        reveal_strlit("BookmarksMenu");
    }
    match browser {
        Browser::Safari => name.unicode_len() == 0 || crate::strutil::str_eq(name, "BookmarksBar")
            || crate::strutil::str_eq(name, "BookmarksMenu"),
        Browser::Chrome => name.unicode_len() == 0,
    }
}

/// Walk one node of the tree, appending every bookmark below it.
#[verifier::loop_isolation(false)]
pub fn collect_bookmarks(
    browser: Browser,
    node: &BookmarkNode,
    folder: Option<&String>,
    results: &mut Vec<Bookmark>,
)
    ensures
        final(results)@.map_values(|b: Bookmark| b@) == old(results)@.map_values(
            |b: Bookmark| b@,
        ) + spec_collect(
            browser,
            *node,
            match folder {
                Option::Some(f) => Option::Some(f@),
                Option::None => Option::None,
            },
        ),
    decreases *node,
{
    proof {
        reveal_strlit("/");
    }
    let ghost fview = match folder {
        Option::Some(f) => Option::Some(f@),
        Option::None => Option::None,
    };
    match node {
        BookmarkNode::Link { url, title, added_at } => {
            if !skip_url(browser, url.as_str()) {
                let title_or_url = if title.unicode_len() == 0 {
                    url.clone()
                } else {
                    title.clone()
                };
                let fol = match folder {
                    Some(f) => Some(f.clone()),
                    None => None,
                };
                let added = match added_at {
                    Some(a) => Some(a.clone()),
                    None => None,
                };
                let ghost pre = results@.map_values(|b: Bookmark| b@);
                results.push(
                    Bookmark { url: url.clone(), title: title_or_url, folder: fol, added_at: added },
                );
                proof {
                    assert(results@.map_values(|b: Bookmark| b@) =~= pre + spec_collect(
                        browser,
                        *node,
                        fview,
                    ));
                }
            } else {
                proof {
                    assert(results@.map_values(|b: Bookmark| b@) =~= results@.map_values(
                        |b: Bookmark| b@,
                    ) + spec_collect(browser, *node, fview));
                }
            }
        },
        BookmarkNode::Folder { name, children } => {
            let child_path: Option<String> = match folder {
                None => {
                    if hidden_root(browser, name.as_str()) {
                        None
                    } else {
                        Some(name.clone())
                    }
                },
                Some(p) => {
                    if name.unicode_len() == 0 {
                        Some(p.clone())
                    } else {
                        let mut s = p.clone();
                        s.append("/");
                        s.append(name.as_str());
                        Some(s)
                    }
                },
            };
            let ghost cpath = spec_child_path(browser, fview, name@);
            proof {
                assert(match child_path {
                    Option::Some(ref f) => cpath == Option::Some(f@),
                    Option::None => cpath is None,
                });
            }
            let ghost pre = results@.map_values(|b: Bookmark| b@);
            let mut i: usize = 0;
            while i < children.len()
                invariant
                    results@.map_values(|b: Bookmark| b@) == pre + spec_collect_children(
                        browser,
                        children@.take(i as int),
                        cpath,
                    ),
                    i <= children@.len(),
                    match child_path {
                        Option::Some(ref f) => cpath == Option::Some(f@),
                        Option::None => cpath is None,
                    },
                decreases children@.len() - i,
            {
                let cref = match &child_path {
                    Some(f) => Some(f),
                    None => None,
                };
                proof {
                    assert(decreases_to!(*node => node->Folder_children));
                    assert(decreases_to!(*children => children@));
                    assert(decreases_to!(children@ => children@[i as int]));
                }
                collect_bookmarks(browser, &children[i], cref, results);
                proof {
                    assert(children@.take(i + 1).drop_last() =~= children@.take(i as int));
                    assert(children@.take(i + 1).last() == children@[i as int]);
                }
                i += 1;
            }
            proof {
                assert(children@.take(children@.len() as int) =~= children@);
            }
        },
    }
}

/// The offset between the 1601 epoch that Chrome's bookmark times use and
/// the Unix epoch, in seconds.
pub const CHROME_EPOCH_OFFSET_SECS: i64 = 11_644_473_600;

/// The RFC 3339 text of a Chrome bookmark time (microseconds since 1601);
/// empty for times at or before the Unix epoch.
pub open spec fn spec_chrome_iso(micros: i64) -> Seq<char> {
    if micros <= 0 {
        Seq::empty()
    } else {
        let unix = micros / 1_000_000 - CHROME_EPOCH_OFFSET_SECS;
        if unix <= 0 {
            Seq::empty()
        } else {
            iso_of_epoch(unix as i64)
        }
    }
}

pub fn chrome_timestamp_to_iso(micros: i64) -> (r: String)
    ensures
        r@ == spec_chrome_iso(micros),
{
    if micros <= 0 {
        return String::new();
    }
    let unix = micros / 1_000_000 - CHROME_EPOCH_OFFSET_SECS;
    if unix <= 0 {
        String::new()
    } else {
        format_timestamp_iso(unix)
    }
}

} // verus!
