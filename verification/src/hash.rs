//! Stable item identifiers: sources without a stable key of their own (a
//! clippings file keyed by book title) get one derived from a SHA-256 digest,
//! truncated and hex-encoded. The digest is computed by the `sha2` crate;
//! the truncation and the hex encoding are verified here.

use vstd::prelude::*;

use vstd::string::StringExecFns;
use vstd::string::StringSliceAdditionalSpecFns;

use sha2::Digest;

verus! {

/// The SHA-256 digest of a byte sequence.
pub uninterp spec fn sha256_of(data: Seq<u8>) -> Seq<u8>;

/// Relies on `sha2::Sha256::digest`: the digest depends on the input bytes
/// alone, and is 32 bytes long.
#[verifier::external_body]
fn sha256_digest(data: &[u8]) -> (r: Vec<u8>)
    ensures
        r@ == sha256_of(data@),
        r@.len() == 32,
{
    sha2::Sha256::digest(data).to_vec()
}

pub open spec fn hex_digit(d: int) -> char {
    if d < 10 {
        crate::text::digit_char(d)
    } else if d == 10 {
        'a'
    } else if d == 11 {
        'b'
    } else if d == 12 {
        'c'
    } else if d == 13 {
        'd'
    } else if d == 14 {
        'e'
    } else {
        'f'
    }
}

/// Lowercase hex text of a byte sequence: two digits per byte, high nibble
/// first.
pub open spec fn spec_hex(bytes: Seq<u8>) -> Seq<char>
    decreases bytes.len(),
{
    if bytes.len() == 0 {
        Seq::empty()
    } else {
        spec_hex(bytes.drop_last()) + seq![
            hex_digit(bytes.last() as int / 16),
            hex_digit(bytes.last() as int % 16),
        ]
    }
}

fn hex_digit_str(d: u8) -> (s: &'static str)
    requires
        d < 16,
    ensures
        s@ =~= seq![hex_digit(d as int)],
{
    proof {
        reveal_strlit("a");
        reveal_strlit("b");
        reveal_strlit("c");
        reveal_strlit("d");
        reveal_strlit("e");
        reveal_strlit("f");
    }
    match d {
        0 => crate::text::digit_str(0),
        1 => crate::text::digit_str(1),
        2 => crate::text::digit_str(2),
        3 => crate::text::digit_str(3),
        4 => crate::text::digit_str(4),
        5 => crate::text::digit_str(5),
        6 => crate::text::digit_str(6),
        7 => crate::text::digit_str(7),
        8 => crate::text::digit_str(8),
        9 => crate::text::digit_str(9),
        10 => "a",
        11 => "b",
        12 => "c",
        13 => "d",
        14 => "e",
        _ => "f",
    }
}

/// Hex-encode bytes, two lowercase digits per byte.
pub fn hex_encode(bytes: &[u8]) -> (s: String)
    ensures
        s@ == spec_hex(bytes@),
{
    let mut s = String::new();
    let mut i: usize = 0;
    while i < bytes.len()
        invariant
            i <= bytes@.len(),
            s@ == spec_hex(bytes@.take(i as int)),
        decreases bytes@.len() - i,
    {
        let b = bytes[i];
        s.append(hex_digit_str(b / 16));
        s.append(hex_digit_str(b % 16));
        proof {
            assert(bytes@.take(i + 1).drop_last() =~= bytes@.take(i as int));
            assert(bytes@.take(i + 1).last() == bytes@[i as int]);
            assert(s@ =~= spec_hex(bytes@.take(i + 1)));
        }
        i += 1;
    }
    proof {
        assert(bytes@.take(bytes@.len() as int) =~= bytes@);
    }
    s
}

/// A deterministic identifier derived from a text: the first 8 bytes of its
/// SHA-256 digest, hex-encoded (16 digits). Used where a source exposes no
/// stable per-item key.
pub fn stable_hash_hex(input: &str) -> (r: String)
    ensures
        r@ == spec_hex(sha256_of(input.spec_bytes()).take(8)),
{
    let digest = sha256_digest(input.as_bytes());
    let mut prefix: Vec<u8> = Vec::new();
    let mut i: usize = 0;
    while i < 8
        invariant
            digest@.len() == 32,
            i <= 8,
            prefix@ == digest@.take(i as int),
        decreases 8 - i,
    {
        prefix.push(digest[i]);
        proof {
            assert(digest@.take(i + 1) =~= digest@.take(i as int).push(digest@[i as int]));
        }
        i += 1;
    }
    let r = hex_encode(prefix.as_slice());
    proof {
        assert(prefix@ =~= sha256_of(input.spec_bytes()).take(8));
    }
    r
}

} // verus!
