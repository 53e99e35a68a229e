//! Verified text helpers: decimal rendering and the outcome messages built
//! from it.

use vstd::prelude::*;

use vstd::string::StringExecFns;

verus! {

pub open spec fn digit_char(d: int) -> char {
    if d == 0 {
        '0'
    } else if d == 1 {
        '1'
    } else if d == 2 {
        '2'
    } else if d == 3 {
        '3'
    } else if d == 4 {
        '4'
    } else if d == 5 {
        '5'
    } else if d == 6 {
        '6'
    } else if d == 7 {
        '7'
    } else if d == 8 {
        '8'
    } else {
        '9'
    }
}

/// The decimal digit sequence of a non-negative number, most significant
/// digit first, no leading zeros (a single zero for 0).
pub open spec fn spec_decimal(n: int) -> Seq<char>
    decreases n,
{
    if n < 10 {
        seq![digit_char(n)]
    } else {
        spec_decimal(n / 10) + seq![digit_char(n % 10)]
    }
}

pub(crate) fn digit_str(d: u32) -> (s: &'static str)
    requires
        d < 10,
    ensures
        s@ =~= seq![digit_char(d as int)],
{
    proof {
        reveal_strlit("0");
        reveal_strlit("1");
        reveal_strlit("2");
        reveal_strlit("3");
        reveal_strlit("4");
        reveal_strlit("5");
        reveal_strlit("6");
        reveal_strlit("7");
        reveal_strlit("8");
        reveal_strlit("9");
    }
    match d {
        0 => "0",
        1 => "1",
        2 => "2",
        3 => "3",
        4 => "4",
        5 => "5",
        6 => "6",
        7 => "7",
        8 => "8",
        _ => "9",
    }
}

pub fn u32_to_string(n: u32) -> (s: String)
    ensures
        s@ == spec_decimal(n as int),
    decreases n,
{
    if n < 10 {
        digit_str(n).to_owned()
    } else {
        let mut s = u32_to_string(n / 10);
        s.append(digit_str(n % 10));
        proof {
            assert(s@ =~= spec_decimal(n as int));
        }
        s
    }
}

/// The outcome message of a successful run.
pub open spec fn spec_synced_message(n: u32) -> Seq<char> {
    if n == 0 {
        "No changes detected"@
    } else {
        "Synced "@ + spec_decimal(n as int) + " items"@
    }
}

pub fn synced_message(n: u32) -> (s: String)
    ensures
        s@ == spec_synced_message(n),
{
    if n == 0 {
        "No changes detected".to_owned()
    } else {
        let mut s = "Synced ".to_owned();
        let digits = u32_to_string(n);
        s.append(digits.as_str());
        s.append(" items");
        proof {
            assert(s@ =~= spec_synced_message(n));
        }
        s
    }
}

} // verus!
