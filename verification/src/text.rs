//! Questions about text that the router asks, answered character by character.

use vstd::prelude::*;
use vstd::std_specs::iter::IteratorSpec;
use vstd::string::StrSliceExecFns;

verus! {

broadcast use vstd::string::group_string_axioms;

/// Tells whether `a` and `b` hold the same characters.
pub fn same_text(a: &str, b: &str) -> (same: bool)
    ensures
        same == (a@ == b@),
{
    let mut a_rest = a.chars();
    let mut b_rest = b.chars();
    let ghost mut seen: int = 0;
    loop
        invariant
            0 <= seen <= a@.len(),
            seen <= b@.len(),
            a_rest.remaining() == a@.skip(seen),
            b_rest.remaining() == b@.skip(seen),
            a@.take(seen) == b@.take(seen),
        decreases a@.len() - seen,
    {
        let a_next = a_rest.next();
        let b_next = b_rest.next();
        match (a_next, b_next) {
            (None, None) => {
                assert(a@ == a@.take(seen));
                assert(b@ == b@.take(seen));
                return true;
            },
            (Some(x), Some(y)) => {
                if x != y {
                    return false;
                }
                proof {
                    seen = seen + 1;
                }
            },
            _ => {
                return false;
            },
        }
    }
}

/// Tells whether `c` occurs in `s`.
pub fn contains_char(s: &str, c: char) -> (found: bool)
    ensures
        found == s@.contains(c),
{
    let mut rest = s.chars();
    let ghost mut seen: int = 0;
    loop
        invariant
            0 <= seen <= s@.len(),
            rest.remaining() == s@.skip(seen),
            forall|i: int| 0 <= i < seen ==> s@[i] != c,
        decreases s@.len() - seen,
    {
        match rest.next() {
            None => {
                return false;
            },
            Some(next) => {
                if next == c {
                    return true;
                }
                proof {
                    seen = seen + 1;
                }
            },
        }
    }
}

/// Takes `prefix` off the front of `s`: what follows it, or `None` where `s`
/// does not start with `prefix`.
pub fn strip_prefix<'a>(s: &'a str, prefix: &str) -> (rest: Option<&'a str>)
    ensures
        match rest {
            Some(tail) => s@ == prefix@ + tail@,
            None => !prefix@.is_prefix_of(s@),
        },
{
    let prefix_len: usize = prefix.unicode_len();
    let mut s_rest = s.chars();
    let mut prefix_rest = prefix.chars();
    let mut matched: usize = 0;
    loop
        invariant
            prefix_len == prefix@.len(),
            matched <= prefix_len,
            matched <= s@.len(),
            s_rest.remaining() == s@.skip(matched as int),
            prefix_rest.remaining() == prefix@.skip(matched as int),
            s@.take(matched as int) == prefix@.take(matched as int),
        decreases prefix_len - matched,
    {
        match prefix_rest.next() {
            None => {
                let s_len: usize = s.unicode_len();
                let tail = s.substring_char(matched, s_len);
                assert(s@ == s@.take(matched as int) + s@.skip(matched as int));
                return Some(tail);
            },
            Some(expected) => {
                match s_rest.next() {
                    None => {
                        return None;
                    },
                    Some(found) => {
                        if found != expected {
                            return None;
                        }
                        matched = matched + 1;
                    },
                }
            },
        }
    }
}

} // verus!
