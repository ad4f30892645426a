//! Byte-level text matching.
//!
//! All signature matching in the scanner (error markers, framework
//! fingerprints, header directives) is substring search over the UTF-8 bytes
//! of the inspected text, optionally after ASCII case folding. The
//! specifications below are stated over `Seq<u8>`; for a `&str` the relevant
//! sequence is its `spec_bytes()`, the UTF-8 encoding of its view.

use vstd::prelude::*;
use vstd::string::StringSliceAdditionalSpecFns;

verus! {

/// The UTF-8 encoding of a character sequence; for a `&str` or `String` view
/// this is exactly its byte content.
pub open spec fn bytes_of(s: Seq<char>) -> Seq<u8> {
    vstd::utf8::encode_utf8(s)
}

/// ASCII case folding of one byte: upper-case letters map to lower case,
/// every other byte is unchanged.
pub open spec fn lower_byte(b: u8) -> u8 {
    if 65 <= b && b <= 90 {
        (b + 32) as u8
    } else {
        b
    }
}

/// ASCII case folding of a byte sequence.
pub open spec fn lower_bytes(s: Seq<u8>) -> Seq<u8> {
    s.map_values(|b: u8| lower_byte(b))
}

/// `needle` occurs in `hay` starting at offset `i`.
pub open spec fn match_at(hay: Seq<u8>, needle: Seq<u8>, i: int) -> bool {
    &&& 0 <= i
    &&& i + needle.len() <= hay.len()
    &&& hay.subrange(i, i + needle.len() as int) == needle
}

/// `needle` occurs somewhere in `hay`.
pub open spec fn contains_seq(hay: Seq<u8>, needle: Seq<u8>) -> bool {
    exists|i: int| match_at(hay, needle, i)
}

/// `needle` occurs in `hay` after ASCII-lower-casing `hay`.
/// The needles used by the scanner are already lower case.
pub open spec fn contains_lower(hay: Seq<u8>, needle: Seq<u8>) -> bool {
    contains_seq(lower_bytes(hay), needle)
}

/// ASCII case folding of a byte vector.
pub fn to_lower_vec(s: &[u8]) -> (r: Vec<u8>)
    ensures
        r@ == lower_bytes(s@),
{
    let mut out: Vec<u8> = Vec::new();
    let mut i: usize = 0;
    while i < s.len()
        invariant
            i <= s@.len(),
            out@ == lower_bytes(s@.subrange(0, i as int)),
        decreases s@.len() - i,
    {
        let b = s[i];
        let lb = if 65 <= b && b <= 90 {
            b + 32
        } else {
            b
        };
        out.push(lb);
        proof {
            assert(lower_bytes(s@.subrange(0, i + 1 as int)) =~= lower_bytes(
                s@.subrange(0, i as int),
            ).push(lower_byte(s@[i as int])));
        }
        i = i + 1;
    }
    proof {
        assert(s@.subrange(0, s@.len() as int) =~= s@);
    }
    out
}

/// `needle` occurs in `hay` starting at offset `at` (executable check of one
/// offset).
fn matches_at(hay: &[u8], needle: &[u8], at: usize) -> (r: bool)
    requires
        at + needle@.len() <= hay@.len(),
    ensures
        r == match_at(hay@, needle@, at as int),
{
    let hay_len = hay.len();
    let mut j: usize = 0;
    while j < needle.len()
        invariant
            at + needle@.len() <= hay@.len(),
            hay_len == hay@.len(),
            j <= needle@.len(),
            forall|k: int| 0 <= k < j ==> hay@[at + k] == needle@[k],
        decreases needle@.len() - j,
    {
        proof {
            assert(at + j < hay@.len());
        }
        if hay[at + j] != needle[j] {
            proof {
                let sub = hay@.subrange(at as int, at + needle@.len() as int);
                assert(sub[j as int] != needle@[j as int]);
            }
            return false;
        }
        j = j + 1;
    }
    proof {
        assert(hay@.subrange(at as int, at + needle@.len() as int) =~= needle@);
    }
    true
}

/// Substring search over byte slices.
pub fn contains_bytes(hay: &[u8], needle: &[u8]) -> (r: bool)
    ensures
        r == contains_seq(hay@, needle@),
{
    if needle.len() > hay.len() {
        proof {
            assert(forall|i: int| !match_at(hay@, needle@, i));
        }
        return false;
    }
    let last = hay.len() - needle.len();
    let mut i: usize = 0;
    loop
        invariant
            needle@.len() <= hay@.len(),
            last == hay@.len() - needle@.len(),
            i <= last,
            forall|k: int| 0 <= k < i ==> !match_at(hay@, needle@, k),
        decreases last - i,
    {
        if matches_at(hay, needle, i) {
            return true;
        }
        if i == last {
            proof {
                assert(forall|k: int|
                    match_at(hay@, needle@, k) ==> 0 <= k <= hay@.len() - needle@.len());
            }
            return false;
        }
        i = i + 1;
    }
}

/// Does the UTF-8 encoding of `hay` contain that of `needle`?
pub fn str_contains(hay: &str, needle: &str) -> (r: bool)
    ensures
        r == contains_seq(hay.spec_bytes(), needle.spec_bytes()),
{
    contains_bytes(hay.as_bytes(), needle.as_bytes())
}

/// Case-insensitive variant: `needle` (already lower case) against the
/// ASCII-lower-cased bytes of `hay`.
pub fn str_contains_lower(hay: &str, needle: &str) -> (r: bool)
    ensures
        r == contains_lower(hay.spec_bytes(), needle.spec_bytes()),
{
    let folded = to_lower_vec(hay.as_bytes());
    contains_bytes(folded.as_slice(), needle.as_bytes())
}

/// Does the UTF-8 encoding of `hay` start with that of `prefix`?
pub fn str_starts_with(hay: &str, prefix: &str) -> (r: bool)
    ensures
        r == match_at(hay.spec_bytes(), prefix.spec_bytes(), 0),
{
    let hb = hay.as_bytes();
    let pb = prefix.as_bytes();
    if pb.len() > hb.len() {
        return false;
    }
    matches_at(hb, pb, 0)
}

/// Byte-for-byte equality of two byte slices.
pub fn bytes_eq(a: &[u8], b: &[u8]) -> (r: bool)
    ensures
        r == (a@ == b@),
{
    if a.len() != b.len() {
        return false;
    }
    let n = a.len();
    let mut i: usize = 0;
    while i < n
        invariant
            n == a@.len(),
            a@.len() == b@.len(),
            i <= n,
            forall|k: int| 0 <= k < i ==> a@[k] == b@[k],
        decreases n - i,
    {
        if a[i] != b[i] {
            return false;
        }
        i = i + 1;
    }
    proof {
        assert(a@ =~= b@);
    }
    true
}

/// Byte-for-byte equality of two strings; equivalent to equality of their
/// views, since UTF-8 encoding is injective.
pub fn str_eq(a: &str, b: &str) -> (r: bool)
    ensures
        r == (a@ == b@),
{
    let r = bytes_eq(a.as_bytes(), b.as_bytes());
    proof {
        if r {
            vstd::utf8::encode_utf8_decode_utf8(a@);
            vstd::utf8::encode_utf8_decode_utf8(b@);
        } else {
            if a@ == b@ {
                assert(a.spec_bytes() == b.spec_bytes());
            }
        }
    }
    r
}

} // verus!
