//! Selecting candidate files by name.
//!
//! Discovery lists the direct children of the target directory and
//! keeps those whose extension is `png`, matched ASCII
//! case-insensitively. Reading the directory is the front end's job;
//! the selection rule on the listed names is here.

use vstd::prelude::*;
use vstd::string::StrSliceExecFns;
use crate::chars::lower_char;

verus! {

/// Whether a file name carries the extension `png`, matched ASCII
/// case-insensitively: the name's last dot is followed by exactly
/// `p`, `n`, `g` in some case, and does not open the name (a bare
/// `.png` is a hidden file with no extension).
pub open spec fn spec_is_png_name(name: Seq<char>) -> bool {
    &&& name.len() >= 5
    &&& name[name.len() - 4] == '.'
    &&& lower_char(name[name.len() - 3]) == 'p'
    &&& lower_char(name[name.len() - 2]) == 'n'
    &&& lower_char(name[name.len() - 1]) == 'g'
}

/// The names of `names` that carry the `png` extension, in the order
/// they were listed.
pub open spec fn spec_select_pngs(names: Seq<Seq<char>>) -> Seq<Seq<char>>
    decreases names.len(),
{
    if names.len() == 0 {
        Seq::empty()
    } else {
        let rest = spec_select_pngs(names.drop_last());
        if spec_is_png_name(names.last()) {
            rest.push(names.last())
        } else {
            rest
        }
    }
}

/// Whether `lower_char(c) == l`.
fn char_lowers_to(c: char, l: char) -> (r: bool)
    ensures
        r == (lower_char(c) == l),
{
    let u: u32 = c as u32;
    if 65 <= u && u <= 90 {
        u + 32 == l as u32
    } else {
        u == l as u32
    }
}

/// Whether a file name carries the extension `png`, matched ASCII
/// case-insensitively.
pub fn is_png_name(name: &str) -> (r: bool)
    ensures
        r == spec_is_png_name(name@),
{
    let n = name.unicode_len();
    if n < 5 {
        return false;
    }
    name.get_char(n - 4) == '.' && char_lowers_to(name.get_char(n - 3), 'p') && char_lowers_to(
        name.get_char(n - 2),
        'n',
    ) && char_lowers_to(name.get_char(n - 1), 'g')
}

/// Keep the names that carry the `png` extension, in listed order.
pub fn select_pngs(names: &Vec<String>) -> (r: Vec<String>)
    ensures
        r.deep_view() == spec_select_pngs(names.deep_view()),
{
    let mut r: Vec<String> = Vec::new();
    let n = names.len();
    let ghost nv = names.deep_view();
    for i in 0..n
        invariant
            n == names@.len(),
            nv == names.deep_view(),
            nv.len() == n,
            r.deep_view() == spec_select_pngs(nv.take(i as int)),
    {
        proof {
            assert(nv.take(i + 1).drop_last() =~= nv.take(i as int));
            assert(nv.take(i + 1).last() == nv[i as int]);
            assert(nv[i as int] == names@[i as int]@);
        }
        if is_png_name(names[i].as_str()) {
            r.push(names[i].clone());
            proof {
                assert(r.deep_view() =~= spec_select_pngs(nv.take(i + 1)));
            }
        }
    }
    proof {
        assert(nv.take(n as int) =~= nv);
    }
    r
}

} // verus!
