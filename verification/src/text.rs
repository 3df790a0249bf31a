//! Conversions between strings and character vectors, and small helpers
//! shared by the path and message logic.

use vstd::prelude::*;

verus! {

/// Relies on str::chars: the iterator yields exactly the characters of the
/// string, which are the string's view.
#[verifier::external_body]
pub(crate) fn str_chars(s: &str) -> (v: Vec<char>)
    ensures
        v@ == s@,
{
    s.chars().collect()
}

/// Relies on core::iter::Iterator::collect for String: collecting characters
/// builds the string whose characters they are, which is the string's view.
#[verifier::external_body]
pub(crate) fn chars_string(v: &Vec<char>) -> (s: String)
    ensures
        s@ == v@,
{
    v.iter().collect()
}

/// Copy of the characters of `t` in positions `from` (inclusive) to `to`
/// (exclusive).
pub(crate) fn subvec(t: &Vec<char>, from: usize, to: usize) -> (r: Vec<char>)
    requires
        from <= to <= t@.len(),
    ensures
        r@ == t@.subrange(from as int, to as int),
{
    let mut r: Vec<char> = Vec::new();
    let mut j: usize = from;
    while j < to
        invariant
            from <= j <= to <= t@.len(),
            r@ == t@.subrange(from as int, j as int),
        decreases to - j,
    {
        r.push(t[j]);
        proof {
            assert(t@.subrange(from as int, j + 1 as int) =~= t@.subrange(
                from as int,
                j as int,
            ).push(t@[j as int]));
        }
        j = j + 1;
    }
    proof {
        assert(r@ =~= t@.subrange(from as int, to as int));
    }
    r
}

} // verus!
