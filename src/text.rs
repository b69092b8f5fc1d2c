//! Building strings out of characters.
use vstd::prelude::*;

verus! {

/// Relies on `String::from_iter`: the string holds the characters of `v`, in
/// order.
#[verifier::external_body]
pub(crate) fn string_of(v: Vec<char>) -> (r: String)
    ensures
        r@ == v@,
{
    String::from_iter(v)
}

/// Appends the characters of `s` to `out`.
pub(crate) fn push_chars(out: &mut Vec<char>, s: &str)
    ensures
        final(out)@ == old(out)@ + s@,
{
    let ghost start = out@;
    for c in it: s.chars()
        invariant
            it.seq() == s@,
            out@ == start + s@.take(it.index()),
    {
        assert(s@.take(it.index() + 1) =~= s@.take(it.index()).push(c));
        out.push(c);
        assert(out@ =~= start + s@.take(it.index() + 1));
    }
    assert(s@.take(s@.len() as int) =~= s@);
}

} // verus!
