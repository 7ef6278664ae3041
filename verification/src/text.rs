//! Verified string comparison helpers used by the enum registries: exact
//! equality and ASCII-case-insensitive equality over `&str` views.

use vstd::prelude::*;
use vstd::string::StrSliceExecFns;

verus! {

/// Two characters match ignoring ASCII case: equal outright, or one is an
/// ASCII capital letter and the other its lowercase form (code point + 32).
pub open spec fn ci_char_eq(x: char, y: char) -> bool {
    ||| x == y
    ||| (65 <= x as int <= 90 && y as int == x as int + 32)
    ||| (65 <= y as int <= 90 && x as int == y as int + 32)
}

/// Two character sequences match ignoring ASCII case.
pub open spec fn ci_seq_eq(s: Seq<char>, t: Seq<char>) -> bool {
    s.len() == t.len() && forall|i: int| 0 <= i < s.len() ==> ci_char_eq(#[trigger] s[i], t[i])
}

/// Exact string equality, decided character by character.
pub fn str_eq(a: &str, b: &str) -> (r: bool)
    ensures
        r == (a@ == b@),
{
    let alen: usize = a.unicode_len();
    let blen: usize = b.unicode_len();
    if alen != blen {
        return false;
    }
    let mut i: usize = 0;
    while i < alen
        invariant
            i <= alen,
            alen == a@.len(),
            blen == b@.len(),
            alen == blen,
            forall|j: int| 0 <= j < i ==> a@[j] == b@[j],
        decreases alen - i,
    {
        let ca = a.get_char(i);
        let cb = b.get_char(i);
        if ca != cb {
            return false;
        }
        i = i + 1;
    }
    proof {
        assert(a@ =~= b@);
    }
    true
}

/// Decides `ci_char_eq` on two characters.
fn char_eq_ignore_case(x: char, y: char) -> (r: bool)
    ensures
        r == ci_char_eq(x, y),
{
    if x == y {
        return true;
    }
    let xu: u32 = x as u32;
    let yu: u32 = y as u32;
    (65 <= xu && xu <= 90 && yu == xu + 32) || (65 <= yu && yu <= 90 && xu == yu + 32)
}

/// ASCII-case-insensitive string equality, decided character by character.
pub fn str_eq_ignore_case(a: &str, b: &str) -> (r: bool)
    ensures
        r == ci_seq_eq(a@, b@),
{
    let alen: usize = a.unicode_len();
    let blen: usize = b.unicode_len();
    if alen != blen {
        return false;
    }
    let mut i: usize = 0;
    while i < alen
        invariant
            i <= alen,
            alen == a@.len(),
            blen == b@.len(),
            alen == blen,
            forall|j: int| 0 <= j < i ==> ci_char_eq(#[trigger] a@[j], b@[j]),
        decreases alen - i,
    {
        let ca = a.get_char(i);
        let cb = b.get_char(i);
        if !char_eq_ignore_case(ca, cb) {
            return false;
        }
        i = i + 1;
    }
    true
}

} // verus!
