//! The lexical layer of the attribute language: whitespace, identifiers and
//! splitting at a separator, as specifications over character sequences and
//! as verified scans over a `Vec<char>`.

use vstd::prelude::*;
use crate::text::{chars_of, concat, range_eq};

verus! {

pub open spec fn is_space(c: char) -> bool {
    c == ' ' || c == '\t' || c == '\n' || c == '\r'
}

/// `s` without its leading whitespace.
pub open spec fn trim_start(s: Seq<char>) -> Seq<char>
    decreases s.len(),
{
    if s.len() > 0 && is_space(s[0]) {
        trim_start(s.drop_first())
    } else {
        s
    }
}

/// `s` without its trailing whitespace.
pub open spec fn trim_end(s: Seq<char>) -> Seq<char>
    decreases s.len(),
{
    if s.len() > 0 && is_space(s.last()) {
        trim_end(s.drop_last())
    } else {
        s
    }
}

/// `s` without whitespace at either end.
pub open spec fn trim(s: Seq<char>) -> Seq<char> {
    trim_end(trim_start(s))
}

pub open spec fn is_ident_start(c: char) -> bool {
    ('a' <= c <= 'z') || ('A' <= c <= 'Z') || c == '_'
}

pub open spec fn is_ident_char(c: char) -> bool {
    is_ident_start(c) || ('0' <= c <= '9')
}

/// A word: a letter or `_`, then letters, digits and `_`.
pub open spec fn is_word(s: Seq<char>) -> bool {
    &&& s.len() > 0
    &&& is_ident_start(s[0])
    &&& forall|i: int| 0 <= i < s.len() ==> is_ident_char(#[trigger] s[i])
}

/// The words that Rust reserves, `_` among them, but for one: that word is
/// made of two halves below, since it cannot stand whole in this crate.
pub open spec fn reserved_words() -> Seq<Seq<char>> {
    seq![
        "_"@, "abstract"@, "as"@, "async"@, "await"@, "become"@, "box"@, "break"@, "const"@,
        "continue"@, "crate"@, "do"@, "dyn"@, "else"@, "enum"@, "false"@, "final"@, "fn"@,
        "for"@, "if"@, "impl"@, "in"@, "let"@, "loop"@, "macro"@, "match"@, "mod"@, "move"@,
        "mut"@, "override"@, "priv"@, "pub"@, "ref"@, "return"@, "Self"@, "self"@, "static"@,
        "struct"@, "super"@, "trait"@, "true"@, "try"@, "type"@, "typeof"@, "unsafe"@,
        "unsized"@, "use"@, "virtual"@, "where"@, "while"@, "yield"@,
    ]
}

/// A Rust keyword (strict or reserved), or `_`.
pub open spec fn is_keyword(s: Seq<char>) -> bool {
    reserved_words().contains(s) || s == "ext"@ + "ern"@
}

/// The words that cannot follow `r#` in a raw identifier.
pub open spec fn raw_refused_words() -> Seq<Seq<char>> {
    seq!["_"@, "crate"@, "self"@, "super"@, "Self"@]
}

/// An identifier, as a Rust type name is written: a word that is not a
/// keyword, or a raw identifier `r#` followed by a word (which may be a
/// keyword, but not `_`, `crate`, `self`, `super` or `Self`). Identifiers
/// are ASCII here.
pub open spec fn is_ident(s: Seq<char>) -> bool {
    ||| is_word(s) && !is_keyword(s)
    ||| s.len() > 2 && s[0] == 'r' && s[1] == '#' && is_word(s.skip(2)) && !raw_refused_words().contains(
        s.skip(2),
    )
}

/// The pieces of `s` between occurrences of `sep`, in order: one more piece
/// than there are separators, empty pieces included.
pub open spec fn split(s: Seq<char>, sep: char) -> Seq<Seq<char>>
    decreases s.len(),
{
    if s.len() == 0 {
        seq![Seq::empty()]
    } else {
        let prev = split(s.drop_last(), sep);
        if s.last() == sep {
            prev.push(Seq::empty())
        } else {
            prev.update(prev.len() - 1, prev.last().push(s.last()))
        }
    }
}

/// The characters that each range of `ranges` covers in `cs`.
pub open spec fn pieces(cs: Seq<char>, ranges: Seq<(usize, usize)>) -> Seq<Seq<char>> {
    ranges.map_values(|p: (usize, usize)| cs.subrange(p.0 as int, p.1 as int))
}

/// The bounds of `cs[lo..hi]` once whitespace is trimmed from both ends.
pub(crate) fn trim_bounds(cs: &Vec<char>, lo: usize, hi: usize) -> (r: (usize, usize))
    requires
        lo <= hi <= cs@.len(),
    ensures
        lo <= r.0 <= r.1 <= hi,
        cs@.subrange(r.0 as int, r.1 as int) == trim(cs@.subrange(lo as int, hi as int)),
{
    let mut a: usize = lo;
    while a < hi && (cs[a] == ' ' || cs[a] == '\t' || cs[a] == '\n' || cs[a] == '\r')
        invariant
            lo <= a <= hi <= cs@.len(),
            trim_start(cs@.subrange(lo as int, hi as int)) == trim_start(
                cs@.subrange(a as int, hi as int),
            ),
        decreases hi - a,
    {
        assert(cs@.subrange(a as int, hi as int).drop_first() =~= cs@.subrange(a + 1, hi as int));
        a = a + 1;
    }
    assert(trim_start(cs@.subrange(a as int, hi as int)) == cs@.subrange(a as int, hi as int));
    let mut b: usize = hi;
    while b > a && (cs[b - 1] == ' ' || cs[b - 1] == '\t' || cs[b - 1] == '\n' || cs[b - 1]
        == '\r')
        invariant
            lo <= a <= b <= hi <= cs@.len(),
            trim_end(cs@.subrange(a as int, hi as int)) == trim_end(
                cs@.subrange(a as int, b as int),
            ),
        decreases b - a,
    {
        assert(cs@.subrange(a as int, b as int).drop_last() =~= cs@.subrange(a as int, b - 1));
        b = b - 1;
    }
    (a, b)
}

/// Whether `cs[lo..hi]` is a word.
fn word_at(cs: &Vec<char>, lo: usize, hi: usize) -> (r: bool)
    requires
        lo <= hi <= cs@.len(),
    ensures
        r == is_word(cs@.subrange(lo as int, hi as int)),
{
    let ghost s = cs@.subrange(lo as int, hi as int);
    if lo == hi {
        return false;
    }
    let c0 = cs[lo];
    assert(s[0] == c0);
    if !(('a' <= c0 && c0 <= 'z') || ('A' <= c0 && c0 <= 'Z') || c0 == '_') {
        return false;
    }
    let mut i: usize = lo;
    while i < hi
        invariant
            lo <= i <= hi <= cs@.len(),
            s == cs@.subrange(lo as int, hi as int),
            forall|j: int| 0 <= j < i - lo ==> is_ident_char(#[trigger] s[j]),
        decreases hi - i,
    {
        let c = cs[i];
        assert(s[i - lo] == c);
        if !(('a' <= c && c <= 'z') || ('A' <= c && c <= 'Z') || c == '_' || ('0' <= c && c
            <= '9')) {
            return false;
        }
        i = i + 1;
    }
    true
}

/// Whether `cs[lo..hi]` is one of `words`.
fn word_in(cs: &Vec<char>, lo: usize, hi: usize, words: &Vec<&str>) -> (r: bool)
    requires
        lo <= hi <= cs@.len(),
    ensures
        r == words@.map_values(|w: &str| w@).contains(cs@.subrange(lo as int, hi as int)),
{
    let ghost s = cs@.subrange(lo as int, hi as int);
    let ghost ws = words@.map_values(|w: &str| w@);
    let mut k: usize = 0;
    while k < words.len()
        invariant
            k <= words@.len(),
            lo <= hi <= cs@.len(),
            s == cs@.subrange(lo as int, hi as int),
            ws == words@.map_values(|w: &str| w@),
            forall|j: int| 0 <= j < k ==> ws[j] != s,
        decreases words@.len() - k,
    {
        let w = chars_of(words[k]);
        if w.len() == hi - lo && range_eq(cs, lo, &w, 0, hi - lo) {
            assert(w@.subrange(0, w@.len() as int) =~= w@);
            assert(ws[k as int] == s);
            return true;
        }
        assert(w@.len() == hi - lo ==> w@.subrange(0, w@.len() as int) =~= w@);
        k = k + 1;
    }
    false
}

/// Whether `cs[lo..hi]` is a keyword.
fn keyword_at(cs: &Vec<char>, lo: usize, hi: usize) -> (r: bool)
    requires
        lo <= hi <= cs@.len(),
    ensures
        r == is_keyword(cs@.subrange(lo as int, hi as int)),
{
    let words: Vec<&str> = vec![
        "_", "abstract", "as", "async", "await", "become", "box", "break", "const",
        "continue", "crate", "do", "dyn", "else", "enum", "false", "final", "fn",
        "for", "if", "impl", "in", "let", "loop", "macro", "match", "mod", "move",
        "mut", "override", "priv", "pub", "ref", "return", "Self", "self", "static",
        "struct", "super", "trait", "true", "try", "type", "typeof", "unsafe",
        "unsized", "use", "virtual", "where", "while", "yield",
    ];
    assert(words@.map_values(|w: &str| w@) =~= reserved_words());
    if word_in(cs, lo, hi, &words) {
        return true;
    }
    let last = concat("ext", "ern");
    let w = chars_of(last.as_str());
    if w.len() == hi - lo && range_eq(cs, lo, &w, 0, hi - lo) {
        assert(w@.subrange(0, w@.len() as int) =~= w@);
        return true;
    }
    assert(w@.len() == hi - lo ==> w@.subrange(0, w@.len() as int) =~= w@);
    false
}

/// Whether `cs[lo..hi]` is an identifier.
pub(crate) fn ident_at(cs: &Vec<char>, lo: usize, hi: usize) -> (r: bool)
    requires
        lo <= hi <= cs@.len(),
    ensures
        r == is_ident(cs@.subrange(lo as int, hi as int)),
{
    let ghost s = cs@.subrange(lo as int, hi as int);
    if hi - lo > 2 && cs[lo] == 'r' && cs[lo + 1] == '#' {
        assert(s[1] == '#');
        assert(!is_word(s)) by {
            assert(!is_ident_char(s[1]));
        }
        assert(s.skip(2) =~= cs@.subrange(lo + 2, hi as int));
        let refused: Vec<&str> = vec!["_", "crate", "self", "super", "Self"];
        assert(refused@.map_values(|w: &str| w@) =~= raw_refused_words());
        return word_at(cs, lo + 2, hi) && !word_in(cs, lo + 2, hi, &refused);
    }
    assert(!(s.len() > 2 && s[0] == 'r' && s[1] == '#'));
    word_at(cs, lo, hi) && !keyword_at(cs, lo, hi)
}

/// The ranges of the pieces of `cs[lo..hi]` between occurrences of `sep`.
pub(crate) fn split_ranges(cs: &Vec<char>, lo: usize, hi: usize, sep: char) -> (r: Vec<(usize, usize)>)
    requires
        lo <= hi <= cs@.len(),
    ensures
        pieces(cs@, r@) == split(cs@.subrange(lo as int, hi as int), sep),
        forall|k: int| 0 <= k < r@.len() ==> lo <= (#[trigger] r@[k]).0 <= r@[k].1 <= hi,
{
    let mut r: Vec<(usize, usize)> = Vec::new();
    let mut start: usize = lo;
    let mut i: usize = lo;
    assert(cs@.subrange(lo as int, lo as int) =~= Seq::<char>::empty());
    assert(pieces(cs@, r@).push(cs@.subrange(start as int, i as int)) =~= seq![Seq::<char>::empty()]);
    while i < hi
        invariant
            lo <= start <= i <= hi <= cs@.len(),
            split(cs@.subrange(lo as int, i as int), sep) == pieces(cs@, r@).push(
                cs@.subrange(start as int, i as int),
            ),
            forall|k: int| 0 <= k < r@.len() ==> lo <= (#[trigger] r@[k]).0 <= r@[k].1 <= i,
        decreases hi - i,
    {
        let ghost prev = split(cs@.subrange(lo as int, i as int), sep);
        let ghost whole = cs@.subrange(lo as int, i + 1);
        assert(whole.drop_last() =~= cs@.subrange(lo as int, i as int));
        assert(whole.last() == cs@[i as int]);
        if cs[i] == sep {
            r.push((start, i));
            start = i + 1;
            assert(pieces(cs@, r@) =~= prev);
            assert(cs@.subrange(start as int, i + 1) =~= Seq::<char>::empty());
        } else {
            assert(cs@.subrange(start as int, i + 1) =~= cs@.subrange(start as int, i as int).push(
                cs@[i as int],
            ));
            assert(prev.update(prev.len() - 1, prev.last().push(cs@[i as int])) =~= pieces(
                cs@,
                r@,
            ).push(cs@.subrange(start as int, i + 1)));
        }
        i = i + 1;
    }
    r.push((start, hi));
    assert(pieces(cs@, r@) =~= split(cs@.subrange(lo as int, hi as int), sep));
    r
}

} // verus!
