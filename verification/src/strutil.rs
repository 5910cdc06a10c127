//! String comparison decided in verified code: exact equality over UTF-8
//! bytes, and ASCII-case-insensitive equality over code points.

use vstd::prelude::*;
use vstd::slice::slice_index_get;
use vstd::string::StrSliceExecFns;
use vstd::utf8::encode_utf8_decode_utf8;

verus! {

/// Byte-for-byte equality of two slices.
fn bytes_eq(a: &[u8], b: &[u8]) -> (r: bool)
    ensures
        r == (a@ == b@),
{
    if a.len() != b.len() {
        return false;
    }
    let n: usize = a.len();
    let mut i: usize = 0;
    while i < n
        invariant
            n == a@.len(),
            n == b@.len(),
            i <= n,
            forall|j: int| 0 <= j < i ==> a@[j] == b@[j],
        decreases n - i,
    {
        if *slice_index_get(a, i) != *slice_index_get(b, i) {
            return false;
        }
        i += 1;
    }
    proof {
        assert(a@ =~= b@);
    }
    true
}

/// Equality of two strings: their views agree exactly when their UTF-8
/// encodings agree.
pub fn str_eq(a: &str, b: &str) -> (r: bool)
    ensures
        r == (a@ == b@),
{
    let r = bytes_eq(a.as_bytes(), b.as_bytes());
    proof {
        if r {
            encode_utf8_decode_utf8(a@);
            encode_utf8_decode_utf8(b@);
        }
    }
    r
}

/// An upper-case ASCII code point folded to its lower-case counterpart;
/// every other code point is left alone.
pub open spec fn lower_code(u: u32) -> u32 {
    if 65 <= u <= 90 {
        (u + 32) as u32
    } else {
        u
    }
}

/// The string's code points, each folded to lower-case ASCII.
pub open spec fn fold_chars(s: Seq<char>) -> Seq<u32> {
    s.map_values(|c: char| lower_code(c as u32))
}

/// ASCII-case-insensitive equality of two strings: their case-folded code
/// points agree.
pub fn eq_ignore_ascii_case(a: &str, b: &str) -> (r: bool)
    ensures
        r == (fold_chars(a@) == fold_chars(b@)),
{
    let alen: usize = a.unicode_len();
    let blen: usize = b.unicode_len();
    if alen != blen {
        proof {
            assert(fold_chars(a@).len() == a@.len());
            assert(fold_chars(b@).len() == b@.len());
        }
        return false;
    }
    let mut i: usize = 0;
    while i < alen
        invariant
            alen == a@.len(),
            alen == b@.len(),
            i <= alen,
            forall|j: int| 0 <= j < i ==> lower_code(a@[j] as u32) == lower_code(b@[j] as u32),
        decreases alen - i,
    {
        let ua: u32 = a.get_char(i) as u32;
        let ub: u32 = b.get_char(i) as u32;
        let fa: u32 = if 65 <= ua && ua <= 90 {
            ua + 32
        } else {
            ua
        };
        let fb: u32 = if 65 <= ub && ub <= 90 {
            ub + 32
        } else {
            ub
        };
        if fa != fb {
            proof {
                assert(fold_chars(a@)[i as int] != fold_chars(b@)[i as int]);
            }
            return false;
        }
        i += 1;
    }
    proof {
        assert(fold_chars(a@) =~= fold_chars(b@));
    }
    true
}

} // verus!
