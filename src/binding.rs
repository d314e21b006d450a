//! Binders: turning the raw parts of a request into typed values.
//!
//! The path binder parses the identifier segment itself. Query strings and
//! bodies are decoded by the host's serializer; the binders here take that
//! decoder's result and decide what reaches the handler.

use vstd::prelude::*;

verus! {

/// Why a request could not be bound to the values a handler needs.
#[derive(Debug, Clone, Copy, PartialEq, Eq, Structural)]
pub enum BindingError {
    /// The identifier segment is absent or does not parse as the identifier type.
    PathInvalid,
    /// The query string does not decode into the query type.
    QueryInvalid,
    /// The body is empty or does not decode into the payload type.
    BodyInvalid,
}

impl BindingError {
    /// The HTTP status of the reply: an identifier that cannot be read names no
    /// entity (404); a bad query or body is the client's error (400).
    pub open spec fn spec_status(self) -> u16 {
        match self {
            BindingError::PathInvalid => 404,
            BindingError::QueryInvalid => 400,
            BindingError::BodyInvalid => 400,
        }
    }

    /// The fixed body text of the reply.
    pub open spec fn spec_message(self) -> Seq<char> {
        match self {
            BindingError::PathInvalid => "ENTITY_NOT_FOUND"@,
            BindingError::QueryInvalid => "QUERY_INVALID"@,
            BindingError::BodyInvalid => "BODY_INVALID"@,
        }
    }

    pub fn status(&self) -> (r: u16)
        ensures
            r == self.spec_status(),
    {
        match self {
            BindingError::PathInvalid => 404,
            BindingError::QueryInvalid => 400,
            BindingError::BodyInvalid => 400,
        }
    }

    pub fn message(&self) -> (r: String)
        ensures
            r@ == self.spec_message(),
    {
        match self {
            BindingError::PathInvalid => String::from_str("ENTITY_NOT_FOUND"),
            BindingError::QueryInvalid => String::from_str("QUERY_INVALID"),
            BindingError::BodyInvalid => String::from_str("BODY_INVALID"),
        }
    }
}

pub open spec fn is_digit(c: char) -> bool {
    '0' <= c <= '9'
}

pub open spec fn all_digits(s: Seq<char>) -> bool {
    s.len() > 0 && forall|i: int| 0 <= i < s.len() ==> is_digit(#[trigger] s[i])
}

/// The number that a string of decimal digits writes.
pub open spec fn digits_value(s: Seq<char>) -> nat
    decreases s.len(),
{
    if s.len() == 0 {
        0
    } else {
        digits_value(s.drop_last()) * 10 + (s.last() as nat - '0' as nat) as nat
    }
}

/// The integer that `s` writes in decimal, with an optional sign.
pub open spec fn signed_decimal(s: Seq<char>) -> Option<int> {
    if s.len() > 0 && s[0] == '-' {
        if all_digits(s.drop_first()) {
            Some(-(digits_value(s.drop_first()) as int))
        } else {
            None
        }
    } else if s.len() > 0 && s[0] == '+' {
        if all_digits(s.drop_first()) {
            Some(digits_value(s.drop_first()) as int)
        } else {
            None
        }
    } else if all_digits(s) {
        Some(digits_value(s) as int)
    } else {
        None
    }
}

proof fn lemma_digits_value_prefix(s: Seq<char>, i: int)
    requires
        0 <= i <= s.len(),
        forall|j: int| 0 <= j < s.len() ==> is_digit(#[trigger] s[j]),
    ensures
        digits_value(s.take(i)) <= digits_value(s),
    decreases s.len(),
{
    if i < s.len() {
        assert(s.drop_last().take(i) =~= s.take(i));
        lemma_digits_value_prefix(s.drop_last(), i);
    } else {
        assert(s.take(i) =~= s);
    }
}

/// The value of the digits `cs[lo..hi]`, where it is at most `limit`.
fn bounded_digits(cs: &Vec<char>, lo: usize, hi: usize, limit: u64) -> (r: Option<u64>)
    requires
        lo < hi <= cs@.len(),
        limit >= 9,
    ensures
        all_digits(cs@.subrange(lo as int, hi as int)) && digits_value(
            cs@.subrange(lo as int, hi as int),
        ) <= limit ==> r == Some(digits_value(cs@.subrange(lo as int, hi as int)) as u64),
        !(all_digits(cs@.subrange(lo as int, hi as int)) && digits_value(
            cs@.subrange(lo as int, hi as int),
        ) <= limit) ==> r is None,
{
    let ghost whole = cs@.subrange(lo as int, hi as int);
    let mut k: usize = lo;
    while k < hi
        invariant
            lo <= k <= hi <= cs@.len(),
            whole == cs@.subrange(lo as int, hi as int),
            forall|j: int| lo <= j < k ==> is_digit(#[trigger] cs@[j]),
        decreases hi - k,
    {
        if !('0' <= cs[k] && cs[k] <= '9') {
            assert(whole[k - lo] == cs@[k as int]);
            return None;
        }
        k = k + 1;
    }
    assert(all_digits(whole)) by {
        assert forall|j: int| 0 <= j < whole.len() implies is_digit(#[trigger] whole[j]) by {
            assert(whole[j] == cs@[lo + j]);
        }
    }
    let mut acc: u64 = 0;
    let mut i: usize = lo;
    while i < hi
        invariant
            lo <= i <= hi <= cs@.len(),
            whole == cs@.subrange(lo as int, hi as int),
            all_digits(whole),
            acc as nat == digits_value(cs@.subrange(lo as int, i as int)),
            acc <= limit,
            limit >= 9,
        decreases hi - i,
    {
        let ghost pre = cs@.subrange(lo as int, i as int);
        let ghost next = cs@.subrange(lo as int, i + 1);
        assert(next.drop_last() =~= pre);
        assert(next.last() == whole[i - lo]);
        assert(is_digit(whole[i - lo]));
        let c = cs[i];
        assert(c == whole[i - lo]);
        assert('0' <= c <= '9');
        let d: u64 = (c as u32 - '0' as u32) as u64;
        assert(d <= 9);
        assert(d as nat == (next.last() as nat - '0' as nat) as nat);
        if acc > (limit - d) / 10 {
            assert(acc * 10 + d > limit) by (nonlinear_arith)
                requires
                    acc > (limit - d) / 10,
                    d <= limit,
            ;
            assert(next =~= whole.take(i + 1 - lo));
            proof {
                lemma_digits_value_prefix(whole, i + 1 - lo);
            }
            return None;
        }
        assert(acc * 10 + d <= limit) by (nonlinear_arith)
            requires
                acc <= (limit - d) / 10,
                d <= limit,
        ;
        acc = acc * 10 + d;
        i = i + 1;
    }
    assert(cs@.subrange(lo as int, i as int) =~= whole);
    Some(acc)
}

/// An identifier type that can be read from one path segment.
pub trait PathId: Sized {
    /// Whether the segment `s` denotes some identifier.
    spec fn readable(s: Seq<char>) -> bool;

    /// Whether the segment `s` denotes the identifier `v`.
    spec fn denotes(s: Seq<char>, v: Self) -> bool;

    fn from_segment(s: &str) -> (r: Option<Self>)
        ensures
            r is Some <==> Self::readable(s@),
            r matches Some(v) ==> Self::denotes(s@, v),
    ;
}

impl PathId for i64 {
    /// A decimal integer, with an optional sign, in the range of `i64`.
    open spec fn readable(s: Seq<char>) -> bool {
        signed_decimal(s) matches Some(v) && i64::MIN <= v <= i64::MAX
    }

    open spec fn denotes(s: Seq<char>, v: i64) -> bool {
        signed_decimal(s) == Some(v as int)
    }

    fn from_segment(s: &str) -> (r: Option<i64>) {
        let cs = crate::text::chars_of(s);
        let n = cs.len();
        if n == 0 {
            return None;
        }
        if cs[0] == '-' || cs[0] == '+' {
            assert(cs@.subrange(1, n as int) =~= s@.drop_first());
            if n == 1 {
                return None;
            }
            if cs[0] == '-' {
                match bounded_digits(&cs, 1, n, 0x8000_0000_0000_0000u64) {
                    Some(m) => {
                        if m == 0x8000_0000_0000_0000u64 {
                            Some(i64::MIN)
                        } else {
                            Some(-(m as i64))
                        }
                    },
                    None => None,
                }
            } else {
                match bounded_digits(&cs, 1, n, 0x7fff_ffff_ffff_ffffu64) {
                    Some(m) => Some(m as i64),
                    None => None,
                }
            }
        } else {
            assert(cs@.subrange(0, n as int) =~= s@);
            match bounded_digits(&cs, 0, n, 0x7fff_ffff_ffff_ffffu64) {
                Some(m) => Some(m as i64),
                None => None,
            }
        }
    }
}

impl PathId for u64 {
    /// A decimal integer, with no sign or a `+`, in the range of `u64`.
    open spec fn readable(s: Seq<char>) -> bool {
        signed_decimal(s) matches Some(v) && 0 <= v <= u64::MAX && !(s.len() > 0 && s[0] == '-')
    }

    open spec fn denotes(s: Seq<char>, v: u64) -> bool {
        signed_decimal(s) == Some(v as int)
    }

    fn from_segment(s: &str) -> (r: Option<u64>) {
        let cs = crate::text::chars_of(s);
        let n = cs.len();
        if n == 0 || cs[0] == '-' {
            return None;
        }
        if cs[0] == '+' {
            assert(cs@.subrange(1, n as int) =~= s@.drop_first());
            if n == 1 {
                return None;
            }
            bounded_digits(&cs, 1, n, u64::MAX)
        } else {
            assert(cs@.subrange(0, n as int) =~= s@);
            bounded_digits(&cs, 0, n, u64::MAX)
        }
    }
}

impl PathId for String {
    /// Any non-empty segment, as it stands.
    open spec fn readable(s: Seq<char>) -> bool {
        s.len() > 0
    }

    open spec fn denotes(s: Seq<char>, v: String) -> bool {
        v@ == s
    }

    fn from_segment(s: &str) -> (r: Option<String>) {
        if s.is_empty() {
            None
        } else {
            Some(s.to_owned())
        }
    }
}

/// The path binder: the identifier from its segment, where there is one and
/// it parses.
pub fn bind_path<I: PathId>(segment: Option<&str>) -> (r: Result<I, BindingError>)
    ensures
        match segment {
            Some(s) => {
                &&& r is Ok <==> I::readable(s@)
                &&& r matches Ok(id) ==> I::denotes(s@, id)
                &&& r matches Err(e) ==> e == BindingError::PathInvalid
            },
            None => r == Err::<I, BindingError>(BindingError::PathInvalid),
        },
{
    match segment {
        Some(s) => match I::from_segment(s) {
            Some(id) => Ok(id),
            None => Err(BindingError::PathInvalid),
        },
        None => Err(BindingError::PathInvalid),
    }
}

/// The query binder: what the serializer decoded from the query string, or
/// `QueryInvalid` where it failed.
pub fn bind_query<Q, E>(decoded: Result<Q, E>) -> (r: Result<Q, BindingError>)
    ensures
        r == spec_bind_query(decoded),
{
    match decoded {
        Ok(q) => Ok(q),
        Err(_) => Err(BindingError::QueryInvalid),
    }
}

pub open spec fn spec_bind_query<Q, E>(decoded: Result<Q, E>) -> Result<Q, BindingError> {
    match decoded {
        Ok(q) => Ok(q),
        Err(_) => Err(BindingError::QueryInvalid),
    }
}

/// The body binder: the decoded payload, boxed, where the body is not empty
/// and the serializer decoded it; `BodyInvalid` otherwise.
pub fn bind_body<T, E>(body: &[u8], decoded: Result<T, E>) -> (r: Result<Box<T>, BindingError>)
    ensures
        r == spec_bind_body(body@, decoded),
{
    if body.len() == 0 {
        return Err(BindingError::BodyInvalid);
    }
    match decoded {
        Ok(v) => Ok(Box::new(v)),
        Err(_) => Err(BindingError::BodyInvalid),
    }
}

pub open spec fn spec_bind_body<T, E>(body: Seq<u8>, decoded: Result<T, E>) -> Result<Box<T>, BindingError> {
    if body.len() == 0 {
        Err(BindingError::BodyInvalid)
    } else {
        match decoded {
            Ok(v) => Ok(Box::new(v)),
            Err(_) => Err(BindingError::BodyInvalid),
        }
    }
}

} // verus!
