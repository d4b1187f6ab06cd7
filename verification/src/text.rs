//! Strings as sequences of characters.

use vstd::prelude::*;
use vstd::std_specs::iter::IteratorSpec;

verus! {

/// The characters of `s`, in order.
pub fn chars_of(s: &str) -> (out: Vec<char>)
    ensures
        out@ == s@,
{
    let mut out: Vec<char> = Vec::new();
    let mut it = s.chars();
    broadcast use vstd::string::group_string_axioms;
    assert(it.remaining() == s@);
    loop
        invariant
            it.obeys_prophetic_iter_laws(),
            out@ + it.remaining() == s@,
            it.decrease() is Some,
        ensures
            out@ == s@,
        decreases it.decrease()->0,
    {
        match it.next() {
            Some(c) => {
                out.push(c);
                assert(out@ + it.remaining() =~= s@);
            },
            None => {
                assert(out@ =~= s@);
                break;
            },
        }
    }
    out
}

/// Whether `a` and `b` hold the same characters.
pub fn same_text(a: &str, b: &str) -> (same: bool)
    ensures
        same == (a@ == b@),
{
    let mut left = a.chars();
    let mut right = b.chars();
    broadcast use vstd::string::group_string_axioms;
    let ghost mut done: Seq<char> = Seq::empty();
    loop
        invariant
            left.obeys_prophetic_iter_laws(),
            right.obeys_prophetic_iter_laws(),
            done + left.remaining() == a@,
            done + right.remaining() == b@,
            left.decrease() is Some,
        decreases left.decrease()->0,
    {
        let l = left.next();
        let r = right.next();
        match (l, r) {
            (Some(x), Some(y)) => {
                if x != y {
                    assert(a@[done.len() as int] == x);
                    assert(b@[done.len() as int] == y);
                    return false;
                }
                proof {
                    done = done.push(x);
                    assert(done + left.remaining() =~= a@);
                    assert(done + right.remaining() =~= b@);
                }
            },
            (None, None) => {
                assert(a@ =~= done);
                assert(b@ =~= done);
                return true;
            },
            _ => {
                assert(a@.len() != b@.len());
                return false;
            },
        }
    }
}

} // verus!
