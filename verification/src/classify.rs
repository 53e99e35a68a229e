//! Failure classification. A failed run ends in `NeedsAuth` when the error
//! text carries one of a per-source set of authorization markers (an HTTP
//! 401/403 mention, an expiry phrase), and in `Error` otherwise. The marker
//! sets differ per source because each external service words its rejections
//! differently; sources read from local files never classify as `NeedsAuth`.

use vstd::prelude::*;

use vstd::string::StrSliceExecFns;

use crate::platform::{Platform, SyncPlatformStatus};

verus! {

/// `pat` occurs in `text` starting at position `i`.
pub open spec fn contains_at(text: Seq<char>, pat: Seq<char>, i: int) -> bool {
    0 <= i && i + pat.len() <= text.len() && text.subrange(i, i + pat.len()) == pat
}

/// `pat` occurs somewhere in `text`.
pub open spec fn spec_contains_sub(text: Seq<char>, pat: Seq<char>) -> bool {
    exists|i: int| contains_at(text, pat, i)
}

/// Substring search over characters.
pub fn str_contains_sub(text: &str, pat: &str) -> (r: bool)
    ensures
        r == spec_contains_sub(text@, pat@),
{
    let n = text.unicode_len();
    let m = pat.unicode_len();
    if m == 0 {
        proof {
            assert(text@.subrange(0, 0) =~= pat@);
            assert(contains_at(text@, pat@, 0));
        }
        return true;
    }
    if m > n {
        proof {
            assert forall|i: int| !contains_at(text@, pat@, i) by {}
        }
        return false;
    }
    let mut i: usize = 0;
    while i <= n - m
        invariant
            1 <= m <= n,
            n == text@.len(),
            m == pat@.len(),
            i <= n - m + 1,
            forall|j: int| 0 <= j < i ==> !contains_at(text@, pat@, j),
        decreases n - m - i + 1,
    {
        let mut k: usize = 0;
        let mut matched = true;
        while k < m
            invariant
                1 <= m <= n,
                n == text@.len(),
                m == pat@.len(),
                i <= n - m,
                k <= m,
                matched ==> forall|j: int| 0 <= j < k ==> text@[i + j] == pat@[j],
                !matched ==> !contains_at(text@, pat@, i as int),
            decreases m - k,
        {
            if matched {
                let tc = text.get_char(i + k);
                let pc = pat.get_char(k);
                if tc != pc {
                    matched = false;
                    proof {
                        assert(!contains_at(text@, pat@, i as int)) by {
                            if contains_at(text@, pat@, i as int) {
                                assert(text@.subrange(i as int, i + m)[k as int] == pat@[
                                    k as int
                                ]);
                            }
                        }
                    }
                }
            }
            k += 1;
        }
        if matched {
            proof {
                assert(text@.subrange(i as int, i + m) =~= pat@);
                assert(contains_at(text@, pat@, i as int));
            }
            return true;
        }
        i += 1;
    }
    proof {
        assert forall|j: int| !contains_at(text@, pat@, j) by {
            if 0 <= j < i {
            } else {
            }
        }
    }
    false
}

/// The per-source authorization markers. A source whose error text carries
/// one of these is treated as "credentials no longer valid".
pub open spec fn spec_is_auth_failure(p: Platform, msg: Seq<char>) -> bool {
    match p {
        Platform::WechatRead => spec_contains_sub(msg, "401"@) || spec_contains_sub(
            msg,
            "expired"@,
        ) || spec_contains_sub(msg, "auth"@),
        Platform::Bilibili => spec_contains_sub(msg, "401"@) || spec_contains_sub(
            msg,
            "expired"@,
        ) || spec_contains_sub(msg, "not_login"@),
        Platform::Douban => spec_contains_sub(msg, "auth expired"@) || spec_contains_sub(
            msg,
            "401"@,
        ) || spec_contains_sub(msg, "403"@),
        Platform::Zhihu => spec_contains_sub(msg, "auth expired"@) || spec_contains_sub(
            msg,
            "401"@,
        ) || spec_contains_sub(msg, "403"@),
        Platform::Twitter => spec_contains_sub(msg, "auth expired"@) || spec_contains_sub(
            msg,
            "401"@,
        ) || spec_contains_sub(msg, "403"@),
        Platform::GithubStars => spec_contains_sub(msg, "401"@) || spec_contains_sub(
            msg,
            "invalid or expired"@,
        ),
        _ => false,
    }
}

pub fn is_auth_failure(p: Platform, msg: &str) -> (r: bool)
    ensures
        r == spec_is_auth_failure(p, msg@),
{
    match p {
        Platform::WechatRead => str_contains_sub(msg, "401") || str_contains_sub(msg, "expired")
            || str_contains_sub(msg, "auth"),
        Platform::Bilibili => str_contains_sub(msg, "401") || str_contains_sub(msg, "expired")
            || str_contains_sub(msg, "not_login"),
        Platform::Douban => str_contains_sub(msg, "auth expired") || str_contains_sub(msg, "401")
            || str_contains_sub(msg, "403"),
        Platform::Zhihu => str_contains_sub(msg, "auth expired") || str_contains_sub(msg, "401")
            || str_contains_sub(msg, "403"),
        Platform::Twitter => str_contains_sub(msg, "auth expired") || str_contains_sub(msg, "401")
            || str_contains_sub(msg, "403"),
        Platform::GithubStars => str_contains_sub(msg, "401") || str_contains_sub(
            msg,
            "invalid or expired",
        ),
        _ => false,
    }
}

/// The terminal status of a failed run: `NeedsAuth` on an authorization
/// marker, `Error` otherwise.
pub open spec fn spec_classify_failure(p: Platform, msg: Seq<char>) -> SyncPlatformStatus {
    if spec_is_auth_failure(p, msg) {
        SyncPlatformStatus::NeedsAuth
    } else {
        SyncPlatformStatus::Error
    }
}

pub fn classify_failure(p: Platform, msg: &str) -> (s: SyncPlatformStatus)
    ensures
        s == spec_classify_failure(p, msg@),
{
    if is_auth_failure(p, msg) {
        SyncPlatformStatus::NeedsAuth
    } else {
        SyncPlatformStatus::Error
    }
}

} // verus!
