//! Character-level helpers shared by the text transforms.

use vstd::prelude::*;

verus! {

/// The characters of `s`, in order.
pub(crate) fn chars_of(s: &str) -> (r: Vec<char>)
    ensures
        r@ == s@,
{
    let mut out: Vec<char> = Vec::new();
    for c in it: s.chars()
        invariant
            it.seq() == s@,
            out@ == it.seq().subrange(0, it.index() as int),
    {
        out.push(c);
        assert(out@ =~= it.seq().subrange(0, it.index() + 1));
    }
    assert(out@ =~= s@);
    out
}

/// Relies on `String`'s `FromIterator<&char>`: the string of exactly these characters.
#[verifier::external_body]
pub(crate) fn string_from_chars(v: &Vec<char>) -> (r: String)
    ensures
        r@ == v@,
{
    v.iter().collect()
}

/// Whether `key` stands in `s` at position `a`.
pub(crate) fn matches_at(s: &Vec<char>, a: usize, key: &Vec<char>) -> (r: bool)
    requires
        a <= s@.len(),
    ensures
        r == (a + key@.len() <= s@.len() && s@.subrange(a as int, a + key@.len()) == key@),
{
    if s.len() - a < key.len() {
        return false;
    }
    let mut t: usize = 0;
    while t < key.len()
        invariant
            t <= key@.len(),
            a <= s@.len() <= usize::MAX,
            a + key@.len() <= s@.len(),
            forall|u: int| 0 <= u < t ==> s@[a + u] == key@[u],
        decreases key@.len() - t,
    {
        if s[a + t] != key[t] {
            assert(s@.subrange(a as int, a + key@.len())[t as int] != key@[t as int]);
            return false;
        }
        t += 1;
    }
    assert(s@.subrange(a as int, a + key@.len()) =~= key@);
    true
}

/// Appends `s[a..e]` to `out`.
pub(crate) fn push_range(out: &mut Vec<char>, s: &Vec<char>, a: usize, e: usize)
    requires
        a <= e <= s@.len(),
    ensures
        final(out)@ == old(out)@ + s@.subrange(a as int, e as int),
{
    let mut i = a;
    while i < e
        invariant
            a <= i <= e <= s@.len(),
            out@ == old(out)@ + s@.subrange(a as int, i as int),
        decreases e - i,
    {
        out.push(s[i]);
        i += 1;
        assert(out@ =~= old(out)@ + s@.subrange(a as int, i as int));
    }
}

/// Appends all of `key` to `out`.
pub(crate) fn push_all(out: &mut Vec<char>, key: &Vec<char>)
    ensures
        final(out)@ == old(out)@ + key@,
{
    let mut i: usize = 0;
    while i < key.len()
        invariant
            i <= key@.len(),
            out@ == old(out)@ + key@.subrange(0, i as int),
        decreases key@.len() - i,
    {
        out.push(key[i]);
        i += 1;
        assert(out@ =~= old(out)@ + key@.subrange(0, i as int));
    }
    assert(key@.subrange(0, key@.len() as int) =~= key@);
}

} // verus!
