//! Character-level helpers shared by the parsers and the route builder.

use vstd::prelude::*;

verus! {

/// Relies on `String::push`: appends one character at the end.
#[verifier::external_body]
pub(crate) fn push_char(s: &mut String, c: char)
    ensures
        final(s)@ == old(s)@.push(c),
{
    s.push(c)
}

/// The characters of `s`, in order.
pub(crate) fn chars_of(s: &str) -> (r: Vec<char>)
    ensures
        r@ == s@,
{
    let mut r: Vec<char> = Vec::new();
    for c in iter: s.chars()
        invariant
            r@ == iter.seq().take(iter.index() as int),
            iter.seq() == s@,
    {
        r.push(c);
        assert(r@ =~= iter.seq().take(iter.index() + 1));
    }
    assert(r@ =~= s@);
    r
}

/// The characters `cs[lo..hi]` as a `String`.
pub(crate) fn string_of_range(cs: &Vec<char>, lo: usize, hi: usize) -> (r: String)
    requires
        lo <= hi <= cs@.len(),
    ensures
        r@ == cs@.subrange(lo as int, hi as int),
{
    let mut r = String::new();
    let mut i: usize = lo;
    while i < hi
        invariant
            lo <= i <= hi <= cs@.len(),
            r@ == cs@.subrange(lo as int, i as int),
        decreases hi - i,
    {
        push_char(&mut r, cs[i]);
        i = i + 1;
        assert(r@ =~= cs@.subrange(lo as int, i as int));
    }
    r
}

/// `a` followed by `b`.
pub(crate) fn concat(a: &str, b: &str) -> (r: String)
    ensures
        r@ == a@ + b@,
{
    let mut r = a.to_owned();
    r.append(b);
    r
}

/// Whether `a[alo..alo + len]` and `b[blo..blo + len]` hold the same characters.
pub(crate) fn range_eq(a: &Vec<char>, alo: usize, b: &Vec<char>, blo: usize, len: usize) -> (r: bool)
    requires
        alo + len <= a@.len(),
        blo + len <= b@.len(),
    ensures
        r == (a@.subrange(alo as int, alo + len) == b@.subrange(blo as int, blo + len)),
{
    let mut k: usize = 0;
    while k < len
        invariant
            k <= len,
            alo + len <= a.len(),
            blo + len <= b.len(),
            a@.subrange(alo as int, alo + k) == b@.subrange(blo as int, blo + k),
        decreases len - k,
    {
        if a[alo + k] != b[blo + k] {
            assert(a@.subrange(alo as int, alo + len)[k as int] != b@.subrange(
                blo as int,
                blo + len,
            )[k as int]);
            return false;
        }
        assert(a@.subrange(alo as int, alo + k + 1) =~= a@.subrange(alo as int, alo + k).push(
            a@[alo + k],
        ));
        assert(b@.subrange(blo as int, blo + k + 1) =~= b@.subrange(blo as int, blo + k).push(
            b@[blo + k],
        ));
        k = k + 1;
    }
    true
}

} // verus!
