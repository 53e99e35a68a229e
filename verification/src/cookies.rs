//! Extraction of login cookies from `Set-Cookie` response headers after a
//! QR-code login, and the classification of the QR poll answer. The shell
//! performs the HTTP calls and stores the extracted values in the credential
//! store; the parsing and the all-or-nothing rule are verified here.

use vstd::prelude::*;

use vstd::string::StrSliceExecFns;

use crate::strutil::{find_sub, lemma_spec_find, spec_find, spec_trim, str_eq, trim};

verus! {

/// The start of a QR login flow, handed to the shell's interface: the poll
/// key and the QR content to display.
pub struct BilibiliQrResponse {
    pub qrcode_key: String,
    pub url: String,
    pub qr_image_url: String,
}

/// One answer of the QR login poll.
pub struct QrPollResponse {
    pub code: i32,
    pub message: String,
    pub is_success: bool,
    pub is_expired: bool,
}

/// The login service's poll code for a scanned and confirmed QR code.
pub const QR_CODE_CONFIRMED: i32 = 0;

/// The login service's poll code for an expired QR code.
pub const QR_CODE_EXPIRED: i32 = 86038;

/// Classify one poll answer: confirmed means the cookies may be saved,
/// expired means polling must stop.
pub fn qr_poll_response(code: i32, message: String) -> (r: QrPollResponse)
    ensures
        r.code == code,
        r.message@ == message@,
        r.is_success == (code == QR_CODE_CONFIRMED),
        r.is_expired == (code == QR_CODE_EXPIRED),
{
    QrPollResponse { code, message, is_success: code == 0, is_expired: code == 86038 }
}

/// The three cookies a login must yield before any of them is stored.
pub struct BilibiliCookies {
    pub sessdata: String,
    pub bili_jct: String,
    pub buvid3: String,
}

/// The name-value pair of one `Set-Cookie` header: the text before the first
/// `;`, split at its first `=`, both sides trimmed.
pub open spec fn spec_cookie_pair(h: Seq<char>) -> Option<(Seq<char>, Seq<char>)> {
    let nv = match spec_find(h, ";"@) {
        Option::Some(i) => h.take(i),
        Option::None => h,
    };
    match spec_find(nv, "="@) {
        Option::None => Option::None,
        Option::Some(e) => Option::Some(
            (spec_trim(nv.take(e)), spec_trim(nv.skip(e + 1))),
        ),
    }
}

/// The value of the last header that sets the named cookie.
pub open spec fn spec_cookie_value(headers: Seq<Seq<char>>, name: Seq<char>) -> Option<Seq<char>>
    decreases headers.len(),
{
    if headers.len() == 0 {
        Option::None
    } else {
        match spec_cookie_pair(headers.last()) {
            Option::Some(p) => if p.0 == name {
                Option::Some(p.1)
            } else {
                spec_cookie_value(headers.drop_last(), name)
            },
            Option::None => spec_cookie_value(headers.drop_last(), name),
        }
    }
}

fn cookie_pair(h: &str) -> (r: Option<(String, String)>)
    ensures
        match r {
            Option::Some(p) => spec_cookie_pair(h@) == Option::Some((p.0@, p.1@)),
            Option::None => spec_cookie_pair(h@) is None,
        },
{
    proof {
        reveal_strlit(";");
        reveal_strlit("=");
    }
    let n = h.unicode_len();
    let nv: &str = match find_sub(h, ";") {
        Some(i) => {
            proof {
                lemma_spec_find(h@, ";"@);
            }
            h.substring_char(0, i)
        },
        None => h,
    };
    proof {
        assert(nv@ == match spec_find(h@, ";"@) {
            Option::Some(i) => h@.take(i),
            Option::None => h@,
        }) by {
            if spec_find(h@, ";"@) is Some {
            }
        }
    }
    let m = nv.unicode_len();
    match find_sub(nv, "=") {
        None => None,
        Some(e) => {
            proof {
                lemma_spec_find(nv@, "="@);
            }
            let name = trim(nv.substring_char(0, e)).to_owned();
            let value = trim(nv.substring_char(e + 1, m)).to_owned();
            proof {
                assert(nv@.subrange(0, e as int) =~= nv@.take(e as int));
            }
            Some((name, value))
        },
    }
}

/// Read the three login cookies out of the `Set-Cookie` headers of a
/// confirmed QR poll. All three must be present before any is stored — a
/// partial set is rejected whole, so the credential store never holds a
/// half-updated login.
pub fn save_bilibili_cookies(set_cookie_headers: &Vec<String>) -> (r: Result<
    BilibiliCookies,
    String,
>)
    ensures
        ({
            let hs = set_cookie_headers@.map_values(|h: String| h@);
            match r {
                Result::Ok(c) => {
                    &&& spec_cookie_value(hs, "SESSDATA"@) == Option::Some(c.sessdata@)
                    &&& spec_cookie_value(hs, "bili_jct"@) == Option::Some(c.bili_jct@)
                    &&& spec_cookie_value(hs, "buvid3"@) == Option::Some(c.buvid3@)
                },
                Result::Err(_) => {
                    ||| spec_cookie_value(hs, "SESSDATA"@) is None
                    ||| spec_cookie_value(hs, "bili_jct"@) is None
                    ||| spec_cookie_value(hs, "buvid3"@) is None
                },
            }
        }),
{
    proof {
        reveal_strlit("SESSDATA");
        reveal_strlit("bili_jct");
        reveal_strlit("buvid3");
    }
    let ghost hs = set_cookie_headers@.map_values(|h: String| h@);
    let mut sessdata: Option<String> = None;
    let mut bili_jct: Option<String> = None;
    let mut buvid3: Option<String> = None;

    let mut i: usize = 0;
    while i < set_cookie_headers.len()
        invariant
            hs == set_cookie_headers@.map_values(|h: String| h@),
            i <= hs.len(),
            crate::strutil::opt_str_view(sessdata) == spec_cookie_value(
                hs.take(i as int),
                "SESSDATA"@,
            ),
            crate::strutil::opt_str_view(bili_jct) == spec_cookie_value(
                hs.take(i as int),
                "bili_jct"@,
            ),
            crate::strutil::opt_str_view(buvid3) == spec_cookie_value(hs.take(i as int), "buvid3"@),
        decreases hs.len() - i,
    {
        proof {
            reveal_strlit("SESSDATA");
            reveal_strlit("bili_jct");
            reveal_strlit("buvid3");
            assert(hs[i as int] == set_cookie_headers@[i as int]@);
            assert(hs.take(i + 1).drop_last() =~= hs.take(i as int));
            assert(hs.take(i + 1).last() == hs[i as int]);
            assert("SESSDATA"@ != "bili_jct"@ && "SESSDATA"@ != "buvid3"@ && "bili_jct"@
                != "buvid3"@) by {
                assert("SESSDATA"@[0] == 'S' && "bili_jct"@[0] == 'b' && "buvid3"@[0] == 'b');
                assert("bili_jct"@.len() == 8 && "buvid3"@.len() == 6);
            }
        }
        if let Some((name, value)) = cookie_pair(set_cookie_headers[i].as_str()) {
            if str_eq(name.as_str(), "SESSDATA") {
                sessdata = Some(value);
            } else if str_eq(name.as_str(), "bili_jct") {
                bili_jct = Some(value);
            } else if str_eq(name.as_str(), "buvid3") {
                buvid3 = Some(value);
            }
        }
        i += 1;
    }
    proof {
        assert(hs.take(hs.len() as int) =~= hs);
    }

    match (sessdata, bili_jct, buvid3) {
        (Some(sessdata), Some(bili_jct), Some(buvid3)) => Ok(
            BilibiliCookies { sessdata, bili_jct, buvid3 },
        ),
        _ => Err(
            "Incomplete cookie set from QR login (missing SESSDATA, bili_jct, or buvid3)".to_owned(),
        ),
    }
}

} // verus!
