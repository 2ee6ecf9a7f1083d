//! ASCII case-insensitive character and string matching.
//!
//! Configuration keywords (filter names, file extensions) are matched
//! without regard to ASCII case. The functions here are the shared
//! foundation: a lowercase model of a character, and a matcher that
//! compares a string against an all-lowercase pattern.

use vstd::prelude::*;
use vstd::string::StrSliceExecFns;

verus! {

/// The ASCII-lowercase image of a character: `'A'..='Z'` map to
/// `'a'..='z'`, every other character is unchanged.
pub open spec fn lower_char(c: char) -> char {
    if 65 <= c as u32 && c as u32 <= 90 {
        ((c as u32) + 32) as char
    } else {
        c
    }
}

/// The string `s` equals the all-lowercase pattern `t` up to ASCII case.
pub open spec fn matches_ci(s: Seq<char>, t: Seq<char>) -> bool {
    s.len() == t.len() && (forall|i: int| 0 <= i < s.len() ==> lower_char(s[i]) == t[i])
}

/// Whether lowering `a` gives exactly `b`.
fn eq_ci(a: char, b: char) -> (r: bool)
    ensures
        r == (lower_char(a) == b),
{
    let ua: u32 = a as u32;
    let ub: u32 = b as u32;
    if 65 <= ua && ua <= 90 {
        ua + 32 == ub
    } else {
        ua == ub
    }
}

/// Whether `s` equals the all-lowercase pattern `t` up to ASCII case.
pub fn matches_lower(s: &str, t: &str) -> (r: bool)
    ensures
        r == matches_ci(s@, t@),
{
    let n = s.unicode_len();
    if n != t.unicode_len() {
        return false;
    }
    for i in 0..n
        invariant
            n == s@.len(),
            n == t@.len(),
            forall|j: int| 0 <= j < i ==> lower_char(s@[j]) == t@[j],
    {
        if !eq_ci(s.get_char(i), t.get_char(i)) {
            return false;
        }
    }
    true
}

} // verus!
