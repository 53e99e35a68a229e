//! Parsing of an e-reader clippings file. One entry looks like
//!
//! ```text
//! Book Title (Author Name)
//! - Your Highlight on Location 234-236 | Added on Monday, January 1, 2024 12:00:00
//!
//! highlighted text
//! ==========
//! ```
//!
//! Notes and bookmarks are skipped; only entries with text are kept.

use vstd::prelude::*;

use vstd::string::StrSliceExecFns;
use vstd::string::StringExecFns;

use crate::classify::spec_contains_sub;
use crate::strutil::{
    ends_with_char, find_in_chars, find_sub, lower_chars, opt_str_view, rfind_char, spec_find,
    spec_lower, spec_rfind, spec_split, spec_trim, split_str, str_eq, trim,
};
use crate::time::{clipping_epoch_of, iso_of_epoch, parse_clipping_datetime, format_timestamp_iso};

verus! {

/// One highlight read from the clippings file.
pub struct Clipping {
    pub book_title: String,
    pub author: Option<String>,
    pub location: Option<String>,
    pub added_at: Option<String>,
    pub text: String,
}

/// Mathematical model of a clipping.
pub struct ClippingModel {
    pub book_title: Seq<char>,
    pub author: Option<Seq<char>>,
    pub location: Option<Seq<char>>,
    pub added_at: Option<Seq<char>>,
    pub text: Seq<char>,
}

impl View for Clipping {
    type V = ClippingModel;

    open spec fn view(&self) -> ClippingModel {
        ClippingModel {
            book_title: self.book_title@,
            author: opt_str_view(self.author),
            location: opt_str_view(self.location),
            added_at: opt_str_view(self.added_at),
            text: self.text@,
        }
    }
}

/// Split a title line `Title (Author Name)` into title and author; a line
/// without that shape is all title. Both parts are trimmed; an empty author
/// is none.
pub open spec fn spec_parse_title_author(line: Seq<char>) -> (Seq<char>, Option<Seq<char>>) {
    match spec_rfind(line, '(') {
        Option::Some(p) => {
            if line.len() > 0 && line.last() == ')' {
                let title = spec_trim(line.take(p));
                let author = spec_trim(line.subrange(p + 1, line.len() - 1));
                if title.len() > 0 {
                    (
                        title,
                        if author.len() == 0 {
                            Option::None
                        } else {
                            Option::Some(author)
                        },
                    )
                } else {
                    (spec_trim(line), Option::None)
                }
            } else {
                (spec_trim(line), Option::None)
            }
        },
        Option::None => (spec_trim(line), Option::None),
    }
}

pub fn parse_title_author(line: &str) -> (r: (String, Option<String>))
    ensures
        (r.0@, opt_str_view(r.1)) == spec_parse_title_author(line@),
{
    let n = line.unicode_len();
    if let Some(p) = rfind_char(line, '(') {
        proof {
            crate::strutil::lemma_spec_rfind(line@, '(');
        }
        if ends_with_char(line, ')') {
            proof {
                assert(line@[p as int] == '(');
                assert(line@[n - 1] == ')');
                assert(p < n - 1);
            }
            let title = trim(line.substring_char(0, p)).to_owned();
            let author = trim(line.substring_char(p + 1, n - 1)).to_owned();
            proof {
                assert(line@.subrange(0, p as int) =~= line@.take(p as int));
            }
            if title.unicode_len() > 0 {
                let a = if author.unicode_len() == 0 {
                    None
                } else {
                    Some(author)
                };
                return (title, a);
            }
        }
    }
    (trim(line).to_owned(), None)
}

/// A location reference character: a decimal digit or a dash.
pub open spec fn is_loc_char(c: char) -> bool {
    c == '-' || ('0' <= c && c <= '9')
}

/// How many leading location characters `s` has.
pub open spec fn spec_loc_prefix_len(s: Seq<char>) -> int
    decreases s.len(),
{
    if s.len() > 0 && is_loc_char(s[0]) {
        1 + spec_loc_prefix_len(s.drop_first())
    } else {
        0
    }
}

proof fn lemma_loc_prefix_at(s: Seq<char>, e: int)
    requires
        0 <= e <= s.len(),
        forall|j: int| 0 <= j < e ==> is_loc_char(#[trigger] s[j]),
        e == s.len() || !is_loc_char(s[e]),
    ensures
        spec_loc_prefix_len(s) == e,
    decreases e,
{
    if e > 0 {
        lemma_loc_prefix_at(s.drop_first(), e - 1);
    }
}

/// The location text of a meta line: the digits-and-dashes run after a
/// case-insensitive `location ` marker, presented as `Location <run>`.
pub open spec fn spec_location_of(line: Seq<char>) -> Option<Seq<char>> {
    match spec_find(spec_lower(line), "location "@) {
        Option::None => Option::None,
        Option::Some(ls) => {
            let after = line.skip(ls + "location "@.len());
            let run = after.take(spec_loc_prefix_len(after));
            if run.len() == 0 {
                Option::None
            } else {
                Option::Some("Location "@ + run)
            }
        },
    }
}

/// The sync timestamp of a meta line: the text after `Added on `, parsed as
/// a clippings datetime and re-rendered as RFC 3339 UTC.
pub open spec fn spec_added_at_of(line: Seq<char>) -> Option<Seq<char>> {
    match spec_find(line, "Added on "@) {
        Option::None => Option::None,
        Option::Some(a) => spec_parse_kindle_date(spec_trim(line.skip(a + "Added on "@.len()))),
    }
}

/// Parse a meta line such as
/// `- Your Highlight on Location 234-236 | Added on Monday, January 1, 2024 12:00:00`
/// into its location reference and its timestamp, each if present.
pub fn parse_meta_line(line: &str) -> (r: (Option<String>, Option<String>))
    ensures
        opt_str_view(r.0) == spec_location_of(line@),
        opt_str_view(r.1) == spec_added_at_of(line@),
{
    proof {
        reveal_strlit("location ");
        reveal_strlit("Location ");
        reveal_strlit("Added on ");
    }
    let n = line.unicode_len();
    let lowered = lower_chars(line);

    let location: Option<String> = match find_in_chars(&lowered, "location ") {
        None => None,
        Some(ls) => {
            proof {
                crate::strutil::lemma_spec_find(lowered@, "location "@);
                assert(lowered@.len() == line@.len());
            }
            let start = ls + 9;
            let mut e: usize = start;
            let mut scanning = true;
            while scanning && e < n
                invariant
                    n == line@.len(),
                    start <= e <= n,
                    forall|j: int| start <= j < e ==> is_loc_char(#[trigger] line@[j]),
                    !scanning ==> e < n && !is_loc_char(line@[e as int]),
                decreases n - e + (if scanning { 1int } else { 0int }),
            {
                let c = line.get_char(e);
                if c == '-' || (c >= '0' && c <= '9') {
                    e += 1;
                } else {
                    scanning = false;
                }
            }
            proof {
                let after = line@.skip(start as int);
                assert(forall|j: int|
                    0 <= j < e - start ==> is_loc_char(#[trigger] after[j]));
                lemma_loc_prefix_at(after, e - start);
            }
            if e == start {
                None
            } else {
                let run = line.substring_char(start, e);
                let mut loc = "Location ".to_owned();
                loc.append(run);
                proof {
                    assert(line@.skip(start as int).take(e - start) =~= line@.subrange(
                        start as int,
                        e as int,
                    ));
                    assert(loc@ =~= "Location "@ + line@.skip(start as int).take(e - start));
                }
                Some(loc)
            }
        },
    };

    let added_at: Option<String> = match find_sub(line, "Added on ") {
        None => None,
        Some(a) => {
            proof {
                crate::strutil::lemma_spec_find(line@, "Added on "@);
            }
            let date_str = trim(line.substring_char(a + 9, n));
            parse_kindle_date(date_str)
        },
    };

    (location, added_at)
}

pub open spec fn is_weekday(s: Seq<char>) -> bool {
    ||| s == "Monday"@
    ||| s == "Tuesday"@
    ||| s == "Wednesday"@
    ||| s == "Thursday"@
    ||| s == "Friday"@
    ||| s == "Saturday"@
    ||| s == "Sunday"@
}

fn is_weekday_exec(s: &str) -> (r: bool)
    ensures
        r == is_weekday(s@),
{
    str_eq(s, "Monday") || str_eq(s, "Tuesday") || str_eq(s, "Wednesday") || str_eq(
        s,
        "Thursday",
    ) || str_eq(s, "Friday") || str_eq(s, "Saturday") || str_eq(s, "Sunday")
}

/// A clippings datetime, with the optional weekday prefix removed, parsed
/// and re-rendered as RFC 3339 UTC.
pub open spec fn spec_parse_kindle_date(date: Seq<char>) -> Option<Seq<char>> {
    let stripped = match spec_find(date, ", "@) {
        Option::Some(cp) => if is_weekday(date.take(cp)) {
            date.skip(cp + 2)
        } else {
            date
        },
        Option::None => date,
    };
    match clipping_epoch_of(stripped) {
        Option::Some(ts) => Option::Some(iso_of_epoch(ts)),
        Option::None => Option::None,
    }
}

pub fn parse_kindle_date(date_str: &str) -> (r: Option<String>)
    ensures
        opt_str_view(r) == spec_parse_kindle_date(date_str@),
{
    proof {
        reveal_strlit(", ");
    }
    let n = date_str.unicode_len();
    let stripped: &str = match find_sub(date_str, ", ") {
        Some(cp) => {
            proof {
                crate::strutil::lemma_spec_find(date_str@, ", "@);
            }
            let first = date_str.substring_char(0, cp);
            proof {
                assert(date_str@.subrange(0, cp as int) =~= date_str@.take(cp as int));
            }
            if is_weekday_exec(first) {
                date_str.substring_char(cp + 2, n)
            } else {
                date_str
            }
        },
        None => date_str,
    };
    match parse_clipping_datetime(stripped) {
        Some(ts) => Some(format_timestamp_iso(ts)),
        None => None,
    }
}

/// Trim every line, drop the empty ones, and join the rest with single
/// spaces.
pub open spec fn spec_join_words(lines: Seq<Seq<char>>) -> Seq<char>
    decreases lines.len(),
{
    if lines.len() == 0 {
        Seq::empty()
    } else {
        let w = spec_trim(lines[0]);
        let rest = spec_join_words(lines.drop_first());
        if w.len() == 0 {
            rest
        } else if rest.len() == 0 {
            w
        } else {
            w + " "@ + rest
        }
    }
}

fn join_words(lines: &Vec<String>, from: usize) -> (s: String)
    requires
        from <= lines@.len(),
    ensures
        s@ == spec_join_words(lines@.map_values(|l: String| l@).skip(from as int)),
    decreases lines@.len() - from,
{
    proof {
        reveal_strlit(" ");
    }
    if from == lines.len() {
        proof {
            assert(lines@.map_values(|l: String| l@).skip(from as int) =~= Seq::<
                Seq<char>,
            >::empty());
        }
        String::new()
    } else {
        let w = trim(lines[from].as_str()).to_owned();
        let rest = join_words(lines, from + 1);
        let ghost tail = lines@.map_values(|l: String| l@).skip(from as int);
        proof {
            assert(tail.drop_first() =~= lines@.map_values(|l: String| l@).skip(from + 1));
            assert(tail[0] == lines@[from as int]@);
        }
        if w.unicode_len() == 0 {
            rest
        } else if rest.unicode_len() == 0 {
            w
        } else {
            let mut s = w;
            s.append(" ");
            s.append(rest.as_str());
            proof {
                assert(s@ =~= spec_trim(tail[0]) + " "@ + spec_join_words(tail.drop_first()));
            }
            s
        }
    }
}

/// Parse one entry of the clippings file; entries that are empty, carry no
/// title, are notes or bookmarks, or have no text are dropped.
pub open spec fn spec_parse_entry(entry: Seq<char>) -> Option<ClippingModel> {
    let t = spec_trim(entry);
    if t.len() == 0 {
        Option::None
    } else {
        let lines = spec_split(t, "\n"@);
        if lines.len() == 0 {
            Option::None
        } else {
            let title_line = spec_trim(lines[0]);
            let (book_title, author) = spec_parse_title_author(title_line);
            if book_title.len() == 0 {
                Option::None
            } else if lines.len() < 2 {
                Option::None
            } else {
                let meta_line = spec_trim(lines[1]);
                let ml = spec_lower(meta_line);
                if spec_contains_sub(ml, "your note"@) || spec_contains_sub(
                    ml,
                    "your bookmark"@,
                ) {
                    Option::None
                } else {
                    let (location, added_at) = (
                        spec_location_of(meta_line),
                        spec_added_at_of(meta_line),
                    );
                    let text = if lines.len() < 3 {
                        Seq::<char>::empty()
                    } else {
                        spec_join_words(lines.skip(3))
                    };
                    if text.len() == 0 {
                        Option::None
                    } else {
                        Option::Some(ClippingModel { book_title, author, location, added_at, text })
                    }
                }
            }
        }
    }
}

fn contains_in_chars(s: &Vec<char>, pat: &str) -> (r: bool)
    requires
        pat@.len() >= 1,
    ensures
        r == spec_contains_sub(s@, pat@),
{
    proof {
        crate::strutil::lemma_spec_find(s@, pat@);
    }
    match find_in_chars(s, pat) {
        Some(_) => true,
        None => false,
    }
}

fn parse_entry(entry: &str) -> (r: Option<Clipping>)
    ensures
        match r {
            Option::Some(c) => spec_parse_entry(entry@) == Option::Some(c@),
            Option::None => spec_parse_entry(entry@) is None,
        },
{
    proof {
        reveal_strlit("\n");
        reveal_strlit("your note");
        reveal_strlit("your bookmark");
    }
    let t = trim(entry);
    if t.unicode_len() == 0 {
        return None;
    }
    let lines = split_str(t, "\n");
    if lines.len() == 0 {
        proof {
            assert(lines@.map_values(|l: String| l@).len() == 0);
        }
        return None;
    }
    proof {
        assert(lines@.map_values(|l: String| l@)[0] == lines@[0]@);
        assert(lines@.map_values(|l: String| l@).len() == lines@.len());
    }
    let title_line = trim(lines[0].as_str());
    let (book_title, author) = parse_title_author(title_line);
    if book_title.unicode_len() == 0 {
        return None;
    }
    if lines.len() < 2 {
        return None;
    }
    proof {
        assert(lines@.map_values(|l: String| l@)[1] == lines@[1]@);
    }
    let meta_line = trim(lines[1].as_str());
    let ml = lower_chars(meta_line);
    if contains_in_chars(&ml, "your note") || contains_in_chars(&ml, "your bookmark") {
        return None;
    }
    let (location, added_at) = parse_meta_line(meta_line);
    let text = if lines.len() < 3 {
        String::new()
    } else {
        join_words(&lines, 3)
    };
    if text.unicode_len() == 0 {
        return None;
    }
    Some(Clipping { book_title, author, location, added_at, text })
}

/// The models of the entries that parse, in file order.
pub open spec fn collect_clippings(entries: Seq<Seq<char>>) -> Seq<ClippingModel>
    decreases entries.len(),
{
    if entries.len() == 0 {
        Seq::empty()
    } else {
        collect_clippings(entries.drop_last()) + (match spec_parse_entry(entries.last()) {
            Option::Some(c) => seq![c],
            Option::None => Seq::empty(),
        })
    }
}

/// All clippings of the file: the entries between `==========` separators,
/// parsed, keeping highlights with a title and text.
pub open spec fn spec_parse_clippings(content: Seq<char>) -> Seq<ClippingModel> {
    collect_clippings(spec_split(content, "=========="@))
}

pub fn parse_clippings(content: &str) -> (r: Vec<Clipping>)
    ensures
        r@.map_values(|c: Clipping| c@) == spec_parse_clippings(content@),
{
    proof {
        reveal_strlit("==========");
    }
    let entries = split_str(content, "==========");
    let ghost eviews = entries@.map_values(|e: String| e@);
    let mut r: Vec<Clipping> = Vec::new();
    let mut i: usize = 0;
    while i < entries.len()
        invariant
            eviews == entries@.map_values(|e: String| e@),
            i <= entries@.len(),
            r@.map_values(|c: Clipping| c@) == collect_clippings(eviews.take(i as int)),
        decreases entries@.len() - i,
    {
        let ghost pre = r@.map_values(|c: Clipping| c@);
        proof {
            assert(eviews[i as int] == entries@[i as int]@);
            assert(eviews.take(i + 1).drop_last() =~= eviews.take(i as int));
            assert(eviews.take(i + 1).last() == eviews[i as int]);
        }
        match parse_entry(entries[i].as_str()) {
            Some(c) => {
                r.push(c);
                proof {
                    assert(r@.map_values(|c: Clipping| c@) =~= collect_clippings(
                        eviews.take(i + 1),
                    ));
                }
            },
            None => {
                proof {
                    assert(r@.map_values(|c: Clipping| c@) =~= collect_clippings(
                        eviews.take(i + 1),
                    ));
                }
            },
        }
        i += 1;
    }
    proof {
        assert(eviews.take(eviews.len() as int) =~= eviews);
    }
    r
}

} // verus!
