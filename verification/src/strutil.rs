//! Verified text primitives: substring find, split, trim, ASCII lowering.
//! Everything is specified over character sequences.

use vstd::prelude::*;

use vstd::string::StrSliceExecFns;

use crate::classify::{contains_at, spec_contains_sub};

verus! {

/// The view of an optional string: its character sequence, if present.
pub open spec fn opt_str_view(o: Option<String>) -> Option<Seq<char>> {
    match o {
        Option::Some(s) => Option::Some(s@),
        Option::None => Option::None,
    }
}

/// The whitespace this engine trims: ASCII blanks and the BOM mark that
/// clippings files carry.
pub open spec fn is_space(c: char) -> bool {
    c == ' ' || c == '\t' || c == '\r' || c == '\n' || c == '\u{feff}'
}

pub fn is_space_exec(c: char) -> (r: bool)
    ensures
        r == is_space(c),
{
    c == ' ' || c == '\t' || c == '\r' || c == '\n' || c == '\u{feff}'
}

pub open spec fn spec_trim_start(s: Seq<char>) -> Seq<char>
    decreases s.len(),
{
    if s.len() > 0 && is_space(s[0]) {
        spec_trim_start(s.drop_first())
    } else {
        s
    }
}

pub open spec fn spec_trim_end(s: Seq<char>) -> Seq<char>
    decreases s.len(),
{
    if s.len() > 0 && is_space(s.last()) {
        spec_trim_end(s.drop_last())
    } else {
        s
    }
}

/// `s` without leading and trailing whitespace.
pub open spec fn spec_trim(s: Seq<char>) -> Seq<char> {
    spec_trim_end(spec_trim_start(s))
}

proof fn lemma_trim_start_at(s: Seq<char>, i: int)
    requires
        0 <= i <= s.len(),
        forall|j: int| 0 <= j < i ==> is_space(#[trigger] s[j]),
        i == s.len() || !is_space(s[i]),
    ensures
        spec_trim_start(s) == s.subrange(i, s.len() as int),
    decreases i,
{
    if i == 0 {
        assert(s.subrange(0, s.len() as int) =~= s);
    } else {
        lemma_trim_start_at(s.drop_first(), i - 1);
        assert(s.drop_first().subrange(i - 1, s.drop_first().len() as int) =~= s.subrange(
            i,
            s.len() as int,
        ));
    }
}

proof fn lemma_trim_end_at(s: Seq<char>, i: int)
    requires
        0 <= i <= s.len(),
        forall|j: int| i <= j < s.len() ==> is_space(#[trigger] s[j]),
        i == 0 || !is_space(s[i - 1]),
    ensures
        spec_trim_end(s) == s.subrange(0, i),
    decreases s.len() - i,
{
    if i == s.len() {
        assert(s.subrange(0, i) =~= s);
    } else {
        assert(is_space(s.last()));
        lemma_trim_end_at(s.drop_last(), i);
        assert(s.drop_last().subrange(0, i) =~= s.subrange(0, i));
    }
}

/// Trim whitespace from both ends.
pub fn trim(s: &str) -> (r: &str)
    ensures
        r@ == spec_trim(s@),
{
    let n = s.unicode_len();
    let mut a: usize = 0;
    while a < n && is_space_exec(s.get_char(a))
        invariant
            n == s@.len(),
            a <= n,
            forall|j: int| 0 <= j < a ==> is_space(#[trigger] s@[j]),
        decreases n - a,
    {
        a += 1;
    }
    let mut b: usize = n;
    while b > a && is_space_exec(s.get_char(b - 1))
        invariant
            n == s@.len(),
            a <= b <= n,
            forall|j: int| 0 <= j < a ==> is_space(#[trigger] s@[j]),
            a == n || !is_space(s@[a as int]),
            forall|j: int| b <= j < n ==> is_space(#[trigger] s@[j]),
        decreases b,
    {
        b -= 1;
    }
    let r = s.substring_char(a, b);
    proof {
        lemma_trim_start_at(s@, a as int);
        let t = s@.subrange(a as int, n as int);
        if b == a {
            lemma_trim_end_at(t, 0);
        } else {
            assert(!is_space(t[b - a - 1]));
            lemma_trim_end_at(t, b - a);
        }
        assert(t.subrange(0, b - a) =~= s@.subrange(a as int, b as int));
    }
    r
}

/// The first position where `pat` occurs in `s`.
pub open spec fn spec_find(s: Seq<char>, pat: Seq<char>) -> Option<int>
    decreases s.len(),
{
    if pat.len() == 0 {
        Option::Some(0)
    } else if pat.len() > s.len() {
        Option::None
    } else if s.take(pat.len() as int) == pat {
        Option::Some(0)
    } else {
        match spec_find(s.drop_first(), pat) {
            Option::Some(j) => Option::Some(j + 1),
            Option::None => Option::None,
        }
    }
}

/// `spec_find` returns exactly the first occurrence.
pub proof fn lemma_spec_find(s: Seq<char>, pat: Seq<char>)
    requires
        pat.len() >= 1,
    ensures
        match spec_find(s, pat) {
            Option::Some(i) => contains_at(s, pat, i) && forall|j: int|
                0 <= j < i ==> !contains_at(s, pat, j),
            Option::None => !spec_contains_sub(s, pat),
        },
    decreases s.len(),
{
    if pat.len() > s.len() {
        assert forall|j: int| !contains_at(s, pat, j) by {}
    } else if s.take(pat.len() as int) == pat {
        assert(s.len() >= 1);
        assert(s.subrange(0, pat.len() as int) =~= s.take(pat.len() as int));
        assert(contains_at(s, pat, 0));
    } else {
        assert(s.len() >= 1);
        lemma_spec_find(s.drop_first(), pat);
        assert forall|j: int| 1 <= j && #[trigger] contains_at(s, pat, j) implies contains_at(
            s.drop_first(),
            pat,
            j - 1,
        ) by {
            assert(s.subrange(j, j + pat.len()) =~= s.drop_first().subrange(
                j - 1,
                j - 1 + pat.len(),
            ));
        }
        assert forall|j: int|
            0 <= j && #[trigger] contains_at(s.drop_first(), pat, j) implies contains_at(
            s,
            pat,
            j + 1,
        ) by {
            assert(s.subrange(j + 1, j + 1 + pat.len()) =~= s.drop_first().subrange(
                j,
                j + pat.len(),
            ));
        }
        assert(!contains_at(s, pat, 0)) by {
            if contains_at(s, pat, 0) {
                assert(s.subrange(0, pat.len() as int) =~= s.take(pat.len() as int));
            }
        }
        match spec_find(s.drop_first(), pat) {
            Option::Some(j) => {
                assert(contains_at(s.drop_first(), pat, j));
                assert(contains_at(s, pat, j + 1));
            },
            Option::None => {
                assert forall|j: int| !contains_at(s, pat, j) by {
                    if j >= 1 && contains_at(s, pat, j) {
                        assert(contains_at(s.drop_first(), pat, j - 1));
                        assert(spec_contains_sub(s.drop_first(), pat));
                    }
                }
            },
        }
    }
}

/// Find the first occurrence of a non-empty pattern.
pub fn find_sub(s: &str, pat: &str) -> (r: Option<usize>)
    requires
        pat@.len() >= 1,
    ensures
        match r {
            Option::Some(i) => spec_find(s@, pat@) == Option::Some(i as int),
            Option::None => spec_find(s@, pat@) is None,
        },
{
    proof {
        lemma_spec_find(s@, pat@);
    }
    let n = s.unicode_len();
    let m = pat.unicode_len();
    if m > n {
        return None;
    }
    let mut i: usize = 0;
    while i <= n - m
        invariant
            1 <= m <= n,
            n == s@.len(),
            m == pat@.len(),
            i <= n - m + 1,
            forall|j: int| 0 <= j < i ==> !contains_at(s@, pat@, j),
        decreases n - m - i + 1,
    {
        let mut k: usize = 0;
        let mut matched = true;
        while k < m
            invariant
                1 <= m <= n,
                n == s@.len(),
                m == pat@.len(),
                i <= n - m,
                k <= m,
                matched ==> forall|j: int| 0 <= j < k ==> s@[i + j] == pat@[j],
                !matched ==> !contains_at(s@, pat@, i as int),
            decreases m - k,
        {
            if matched {
                if s.get_char(i + k) != pat.get_char(k) {
                    matched = false;
                    proof {
                        assert(!contains_at(s@, pat@, i as int)) by {
                            if contains_at(s@, pat@, i as int) {
                                assert(s@.subrange(i as int, i + m)[k as int] == pat@[k as int]);
                            }
                        }
                    }
                }
            }
            k += 1;
        }
        if matched {
            proof {
                assert(s@.subrange(i as int, i + m) =~= pat@);
                assert(contains_at(s@, pat@, i as int));
                lemma_spec_find(s@, pat@);
                if spec_find(s@, pat@) is None {
                    assert(false);
                }
                let f = spec_find(s@, pat@)->Some_0;
                assert(f == i);
            }
            return Some(i);
        }
        i += 1;
    }
    proof {
        assert forall|j: int| !contains_at(s@, pat@, j) by {
            if 0 <= j < i {
            }
        }
        lemma_spec_find(s@, pat@);
    }
    None
}

/// The last position of a character in `s`.
pub open spec fn spec_rfind(s: Seq<char>, c: char) -> Option<int>
    decreases s.len(),
{
    if s.len() == 0 {
        Option::None
    } else if s.last() == c {
        Option::Some(s.len() - 1)
    } else {
        spec_rfind(s.drop_last(), c)
    }
}

pub proof fn lemma_spec_rfind(s: Seq<char>, c: char)
    ensures
        match spec_rfind(s, c) {
            Option::Some(i) => 0 <= i < s.len() && s[i] == c && forall|j: int|
                i < j < s.len() ==> s[j] != c,
            Option::None => forall|j: int| 0 <= j < s.len() ==> s[j] != c,
        },
    decreases s.len(),
{
    if s.len() > 0 && s.last() != c {
        lemma_spec_rfind(s.drop_last(), c);
        assert(forall|j: int| 0 <= j < s.len() - 1 ==> #[trigger] s[j] == s.drop_last()[j]);
        assert(s[s.len() - 1] == s.last());
    }
}

/// Find the last occurrence of a character.
pub fn rfind_char(s: &str, c: char) -> (r: Option<usize>)
    ensures
        match r {
            Option::Some(i) => spec_rfind(s@, c) == Option::Some(i as int),
            Option::None => spec_rfind(s@, c) is None,
        },
{
    proof {
        lemma_spec_rfind(s@, c);
    }
    let n = s.unicode_len();
    let mut b: usize = n;
    while b > 0
        invariant
            n == s@.len(),
            b <= n,
            forall|j: int| b <= j < n ==> s@[j] != c,
        decreases b,
    {
        if s.get_char(b - 1) == c {
            proof {
                lemma_spec_rfind(s@, c);
                if spec_rfind(s@, c) is None {
                    assert(false);
                }
                let f = spec_rfind(s@, c)->Some_0;
                assert(f == b - 1);
            }
            return Some(b - 1);
        }
        b -= 1;
    }
    None
}

/// ASCII lowering, character by character.
pub open spec fn spec_lower_char(c: char) -> char {
    if c == 'A' {
        'a'
    } else if c == 'B' {
        'b'
    } else if c == 'C' {
        'c'
    } else if c == 'D' {
        'd'
    } else if c == 'E' {
        'e'
    } else if c == 'F' {
        'f'
    } else if c == 'G' {
        'g'
    } else if c == 'H' {
        'h'
    } else if c == 'I' {
        'i'
    } else if c == 'J' {
        'j'
    } else if c == 'K' {
        'k'
    } else if c == 'L' {
        'l'
    } else if c == 'M' {
        'm'
    } else if c == 'N' {
        'n'
    } else if c == 'O' {
        'o'
    } else if c == 'P' {
        'p'
    } else if c == 'Q' {
        'q'
    } else if c == 'R' {
        'r'
    } else if c == 'S' {
        's'
    } else if c == 'T' {
        't'
    } else if c == 'U' {
        'u'
    } else if c == 'V' {
        'v'
    } else if c == 'W' {
        'w'
    } else if c == 'X' {
        'x'
    } else if c == 'Y' {
        'y'
    } else if c == 'Z' {
        'z'
    } else {
        c
    }
}

pub open spec fn spec_lower(s: Seq<char>) -> Seq<char> {
    s.map_values(|c: char| spec_lower_char(c))
}

pub fn lower_char(c: char) -> (r: char)
    ensures
        r == spec_lower_char(c),
{
    match c {
        'A' => 'a',
        'B' => 'b',
        'C' => 'c',
        'D' => 'd',
        'E' => 'e',
        'F' => 'f',
        'G' => 'g',
        'H' => 'h',
        'I' => 'i',
        'J' => 'j',
        'K' => 'k',
        'L' => 'l',
        'M' => 'm',
        'N' => 'n',
        'O' => 'o',
        'P' => 'p',
        'Q' => 'q',
        'R' => 'r',
        'S' => 's',
        'T' => 't',
        'U' => 'u',
        'V' => 'v',
        'W' => 'w',
        'X' => 'x',
        'Y' => 'y',
        'Z' => 'z',
        _ => c,
    }
}

/// The ASCII-lowered characters of a text; positions are unchanged, so an
/// index found in the lowered text addresses the original.
pub fn lower_chars(s: &str) -> (r: Vec<char>)
    ensures
        r@ == spec_lower(s@),
{
    let n = s.unicode_len();
    let mut r: Vec<char> = Vec::new();
    let mut i: usize = 0;
    while i < n
        invariant
            n == s@.len(),
            i <= n,
            r@ == spec_lower(s@.take(i as int)),
        decreases n - i,
    {
        r.push(lower_char(s.get_char(i)));
        proof {
            assert(spec_lower(s@.take(i + 1)) =~= spec_lower(s@.take(i as int)).push(
                spec_lower_char(s@[i as int]),
            ));
        }
        i += 1;
    }
    proof {
        assert(s@.take(n as int) =~= s@);
    }
    r
}

/// Find the first occurrence of a non-empty pattern in a character vector.
pub fn find_in_chars(s: &Vec<char>, pat: &str) -> (r: Option<usize>)
    requires
        pat@.len() >= 1,
    ensures
        match r {
            Option::Some(i) => spec_find(s@, pat@) == Option::Some(i as int),
            Option::None => spec_find(s@, pat@) is None,
        },
{
    proof {
        lemma_spec_find(s@, pat@);
    }
    let n = s.len();
    let m = pat.unicode_len();
    if m > n {
        return None;
    }
    let mut i: usize = 0;
    while i <= n - m
        invariant
            1 <= m <= n,
            n == s@.len(),
            m == pat@.len(),
            i <= n - m + 1,
            forall|j: int| 0 <= j < i ==> !contains_at(s@, pat@, j),
        decreases n - m - i + 1,
    {
        let mut k: usize = 0;
        let mut matched = true;
        while k < m
            invariant
                1 <= m <= n,
                n == s@.len(),
                m == pat@.len(),
                i <= n - m,
                k <= m,
                matched ==> forall|j: int| 0 <= j < k ==> s@[i + j] == pat@[j],
                !matched ==> !contains_at(s@, pat@, i as int),
            decreases m - k,
        {
            if matched {
                if s[i + k] != pat.get_char(k) {
                    matched = false;
                    proof {
                        assert(!contains_at(s@, pat@, i as int)) by {
                            if contains_at(s@, pat@, i as int) {
                                assert(s@.subrange(i as int, i + m)[k as int] == pat@[k as int]);
                            }
                        }
                    }
                }
            }
            k += 1;
        }
        if matched {
            proof {
                assert(s@.subrange(i as int, i + m) =~= pat@);
                assert(contains_at(s@, pat@, i as int));
                lemma_spec_find(s@, pat@);
                if spec_find(s@, pat@) is None {
                    assert(false);
                }
                let f = spec_find(s@, pat@)->Some_0;
                assert(f == i);
            }
            return Some(i);
        }
        i += 1;
    }
    proof {
        assert forall|j: int| !contains_at(s@, pat@, j) by {
            if 0 <= j < i {
            }
        }
        lemma_spec_find(s@, pat@);
    }
    None
}

/// Split a text at every occurrence of a non-empty separator. A text without
/// the separator is one piece; separators at the ends produce empty pieces.
pub open spec fn spec_split(s: Seq<char>, sep: Seq<char>) -> Seq<Seq<char>>
    decreases s.len(),
{
    if sep.len() == 0 {
        seq![s]
    } else {
        match spec_find(s, sep) {
            Option::None => seq![s],
            Option::Some(i) => {
                if 0 <= i && i + sep.len() <= s.len() {
                    seq![s.take(i)] + spec_split(s.skip(i + sep.len()), sep)
                } else {
                    seq![s]
                }
            },
        }
    }
}

pub fn split_str(s: &str, sep: &str) -> (r: Vec<String>)
    requires
        sep@.len() >= 1,
    ensures
        r@.map_values(|p: String| p@) == spec_split(s@, sep@),
{
    let mut r: Vec<String> = Vec::new();
    let mut rest: &str = s;
    let m = sep.unicode_len();
    loop
        invariant
            m == sep@.len(),
            1 <= m,
            spec_split(s@, sep@) =~= r@.map_values(|p: String| p@) + spec_split(rest@, sep@),
        decreases rest@.len(),
    {
        let ghost pre = r@.map_values(|p: String| p@);
        match find_sub(rest, sep) {
            None => {
                r.push(rest.to_owned());
                proof {
                    assert(r@.map_values(|p: String| p@) =~= pre.push(rest@));
                    assert(spec_split(rest@, sep@) =~= seq![rest@]);
                    assert(r@.map_values(|p: String| p@) =~= spec_split(s@, sep@));
                }
                return r;
            },
            Some(i) => {
                proof {
                    lemma_spec_find(rest@, sep@);
                }
                let n = rest.unicode_len();
                let piece = rest.substring_char(0, i);
                r.push(piece.to_owned());
                let next = rest.substring_char(i + m, n);
                proof {
                    assert(piece@ =~= rest@.take(i as int));
                    assert(next@ =~= rest@.skip(i + m));
                    assert(r@.map_values(|p: String| p@) =~= pre.push(rest@.take(i as int)));
                    assert(spec_split(rest@, sep@) =~= seq![rest@.take(i as int)] + spec_split(
                        rest@.skip(i + m),
                        sep@,
                    ));
                    assert(spec_split(s@, sep@) =~= r@.map_values(|p: String| p@) + spec_split(
                        next@,
                        sep@,
                    ));
                }
                rest = next;
            },
        }
    }
}

/// Character-wise text equality.
pub fn str_eq(a: &str, b: &str) -> (r: bool)
    ensures
        r == (a@ == b@),
{
    let n = a.unicode_len();
    let m = b.unicode_len();
    if n != m {
        return false;
    }
    let mut i: usize = 0;
    while i < n
        invariant
            n == a@.len(),
            n == b@.len(),
            i <= n,
            forall|j: int| 0 <= j < i ==> a@[j] == b@[j],
        decreases n - i,
    {
        if a.get_char(i) != b.get_char(i) {
            return false;
        }
        i += 1;
    }
    proof {
        assert(a@ =~= b@);
    }
    true
}

/// Whether the text ends with the given character.
pub fn ends_with_char(s: &str, c: char) -> (r: bool)
    ensures
        r == (s@.len() > 0 && s@.last() == c),
{
    let n = s.unicode_len();
    if n == 0 {
        false
    } else {
        s.get_char(n - 1) == c
    }
}

} // verus!
