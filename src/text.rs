//! Small operations on text, with their meaning stated over character sequences.

use vstd::prelude::*;
use vstd::string::{StrSliceExecFns, StringExecFns};

verus! {

/// `p` is a prefix of `s`.
pub open spec fn is_prefix_of(p: Seq<char>, s: Seq<char>) -> bool {
    p.len() <= s.len() && s.subrange(0, p.len() as int) == p
}

/// `s` with every leading copy of `p` removed, as many times as it repeats.
pub open spec fn trim_repeated(s: Seq<char>, p: Seq<char>) -> Seq<char>
    decreases s.len(),
{
    if p.len() > 0 && is_prefix_of(p, s) {
        trim_repeated(s.subrange(p.len() as int, s.len() as int), p)
    } else {
        s
    }
}

/// Whether two texts hold the same characters.
pub fn same_text(a: &str, b: &str) -> (r: bool)
    ensures
        r == (a@ == b@),
{
    a.to_owned() == b.to_owned()
}

/// Whether `s` starts with `p`.
pub fn has_prefix(s: &str, p: &str) -> (r: bool)
    ensures
        r == is_prefix_of(p@, s@),
{
    let n = s.unicode_len();
    let m = p.unicode_len();
    if m > n {
        false
    } else {
        same_text(s.substring_char(0, m), p)
    }
}

/// `s` with every leading copy of `p` removed.
pub fn trim_start_repeated(s: &str, p: &str) -> (r: String)
    ensures
        r@ == trim_repeated(s@, p@),
{
    let m = p.unicode_len();
    if m == 0 {
        return s.to_owned();
    }
    let mut rest: &str = s;
    loop
        invariant
            m == p@.len(),
            m > 0,
            trim_repeated(rest@, p@) == trim_repeated(s@, p@),
        decreases rest@.len(),
    {
        if has_prefix(rest, p) {
            let n = rest.unicode_len();
            rest = rest.substring_char(m, n);
        } else {
            return rest.to_owned();
        }
    }
}

/// Joins two texts.
pub fn join(a: &str, b: &str) -> (r: String)
    ensures
        r@ == a@ + b@,
{
    let mut r = a.to_owned();
    r.append(b);
    r
}

} // verus!
