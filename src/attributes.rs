//! The attribute language that describes a resource.
//!
//! Three attributes list types, in parentheses and separated by commas:
//! - `http_find_list_delete(Id, FindQuery, ListQuery, DeleteQuery, AppState)`
//! - `http_create(SaveQuery, AppState)`
//! - `http_update(Id, UpdateQuery, Resource, FindQuery, AppState)`
//!
//! and one gives the route information as named string literals:
//! - `actix_restful_info(scope = "/v1", path = "item")`
//!
//! Each function here parses the argument text of one attribute (what
//! follows its name).

use vstd::prelude::*;
use crate::descriptor::{Attribute, DescriptorError};
use crate::grammar::{
    ident_at, is_ident, pieces, split, split_ranges, trim, trim_bounds,
};
use crate::text::{chars_of, string_of_range};

verus! {

pub open spec fn strings_view(v: Seq<String>) -> Seq<Seq<char>> {
    v.map_values(|s: String| s@)
}

/// The types that a parenthesized, comma-separated list names, where every
/// item is an identifier.
pub open spec fn type_list(s: Seq<char>) -> Option<Seq<Seq<char>>> {
    let t = trim(s);
    if t.len() >= 2 && t[0] == '(' && t.last() == ')' {
        let parts = split(t.subrange(1, t.len() - 1), ',').map_values(|p: Seq<char>| trim(p));
        if forall|k: int| 0 <= k < parts.len() ==> is_ident(#[trigger] parts[k]) {
            Some(parts)
        } else {
            None
        }
    } else {
        None
    }
}

/// Parses a parenthesized list of type names.
#[verifier::loop_isolation(false)]
pub fn parse_type_list(text: &str) -> (r: Option<Vec<String>>)
    ensures
        match type_list(text@) {
            None => r is None,
            Some(ts) => r matches Some(v) && strings_view(v@) == ts,
        },
{
    let cs = chars_of(text);
    let n = cs.len();
    assert(cs@.subrange(0, n as int) =~= text@);
    let (a, b) = trim_bounds(&cs, 0, n);
    if b - a < 2 || cs[a] != '(' || cs[b - 1] != ')' {
        return None;
    }
    let ghost t = cs@.subrange(a as int, b as int);
    assert(t.subrange(1, t.len() - 1) =~= cs@.subrange(a + 1, b - 1));
    let ghost parts = split(t.subrange(1, t.len() - 1), ',').map_values(|p: Seq<char>| trim(p));
    let ranges = split_ranges(&cs, a + 1, b - 1, ',');
    let mut out: Vec<String> = Vec::new();
    let mut k: usize = 0;
    while k < ranges.len()
        invariant
            k <= ranges@.len(),
            parts.len() == ranges@.len(),
            forall|j: int| 0 <= j < ranges@.len() ==> parts[j] == trim(pieces(cs@, ranges@)[j]),
            forall|j: int|
                0 <= j < ranges@.len() ==> a + 1 <= (#[trigger] ranges@[j]).0 <= ranges@[j].1 <= b
                    - 1,
            b <= cs@.len(),
            strings_view(out@) == parts.take(k as int),
            forall|j: int| 0 <= j < k ==> is_ident(#[trigger] parts[j]),
        decreases ranges@.len() - k,
    {
        let (lo, hi) = ranges[k];
        let (x, y) = trim_bounds(&cs, lo, hi);
        assert(pieces(cs@, ranges@)[k as int] == cs@.subrange(lo as int, hi as int));
        if !ident_at(&cs, x, y) {
            assert(!is_ident(parts[k as int]));
            return None;
        }
        let s = string_of_range(&cs, x, y);
        assert(s@ == parts[k as int]);
        out.push(s);
        assert(strings_view(out@) =~= parts.take(k + 1));
        k = k + 1;
    }
    assert(parts.take(k as int) =~= parts);
    Some(out)
}

/// The arguments of `http_find_list_delete`.
pub struct FindListDeleteArgs {
    pub id: String,
    pub find_query: String,
    pub list_query: String,
    pub delete_query: String,
    pub app_state: String,
}

impl View for FindListDeleteArgs {
    type V = Seq<Seq<char>>;

    open spec fn view(&self) -> Seq<Seq<char>> {
        seq![self.id@, self.find_query@, self.list_query@, self.delete_query@, self.app_state@]
    }
}

/// The arguments of `http_create`.
pub struct CreateArgs {
    pub query: String,
    pub app_state: String,
}

impl View for CreateArgs {
    type V = Seq<Seq<char>>;

    open spec fn view(&self) -> Seq<Seq<char>> {
        seq![self.query@, self.app_state@]
    }
}

/// The arguments of `http_update`; `output` is the resource whose `find`
/// checks that the updated entity exists.
pub struct UpdateArgs {
    pub id: String,
    pub query: String,
    pub output: String,
    pub find_query: String,
    pub app_state: String,
}

impl View for UpdateArgs {
    type V = Seq<Seq<char>>;

    open spec fn view(&self) -> Seq<Seq<char>> {
        seq![self.id@, self.query@, self.output@, self.find_query@, self.app_state@]
    }
}

/// The type list of `text` where it names exactly `n` types.
pub open spec fn type_list_of_len(text: Seq<char>, n: nat) -> Option<Seq<Seq<char>>> {
    match type_list(text) {
        Some(ts) => if ts.len() == n {
            Some(ts)
        } else {
            None
        },
        None => None,
    }
}

/// Parses `(Id, FindQuery, ListQuery, DeleteQuery, AppState)`.
pub fn http_find_list_delete(args: &str) -> (r: Result<FindListDeleteArgs, DescriptorError>)
    ensures
        match type_list_of_len(args@, 5) {
            Some(ts) => r matches Ok(a) && a@ == ts,
            None => r == Err::<FindListDeleteArgs, DescriptorError>(
                DescriptorError::Malformed(Attribute::FindListDelete),
            ),
        },
{
    match parse_type_list(args) {
        Some(mut v) => {
            if v.len() != 5 {
                return Err(DescriptorError::Malformed(Attribute::FindListDelete));
            }
            let app_state = v.pop().unwrap();
            let delete_query = v.pop().unwrap();
            let list_query = v.pop().unwrap();
            let find_query = v.pop().unwrap();
            let id = v.pop().unwrap();
            let a = FindListDeleteArgs { id, find_query, list_query, delete_query, app_state };
            assert(a@ =~= type_list(args@)->0);
            Ok(a)
        },
        None => Err(DescriptorError::Malformed(Attribute::FindListDelete)),
    }
}

/// Parses `(SaveQuery, AppState)`.
pub fn http_create(args: &str) -> (r: Result<CreateArgs, DescriptorError>)
    ensures
        match type_list_of_len(args@, 2) {
            Some(ts) => r matches Ok(a) && a@ == ts,
            None => r == Err::<CreateArgs, DescriptorError>(
                DescriptorError::Malformed(Attribute::Create),
            ),
        },
{
    match parse_type_list(args) {
        Some(mut v) => {
            if v.len() != 2 {
                return Err(DescriptorError::Malformed(Attribute::Create));
            }
            let app_state = v.pop().unwrap();
            let query = v.pop().unwrap();
            let a = CreateArgs { query, app_state };
            assert(a@ =~= type_list(args@)->0);
            Ok(a)
        },
        None => Err(DescriptorError::Malformed(Attribute::Create)),
    }
}

/// Parses `(Id, UpdateQuery, Resource, FindQuery, AppState)`.
pub fn http_update(args: &str) -> (r: Result<UpdateArgs, DescriptorError>)
    ensures
        match type_list_of_len(args@, 5) {
            Some(ts) => r matches Ok(a) && a@ == ts,
            None => r == Err::<UpdateArgs, DescriptorError>(
                DescriptorError::Malformed(Attribute::Update),
            ),
        },
{
    match parse_type_list(args) {
        Some(mut v) => {
            if v.len() != 5 {
                return Err(DescriptorError::Malformed(Attribute::Update));
            }
            let app_state = v.pop().unwrap();
            let find_query = v.pop().unwrap();
            let output = v.pop().unwrap();
            let query = v.pop().unwrap();
            let id = v.pop().unwrap();
            let a = UpdateArgs { id, query, output, find_query, app_state };
            assert(a@ =~= type_list(args@)->0);
            Ok(a)
        },
        None => Err(DescriptorError::Malformed(Attribute::Update)),
    }
}

/// Cut at each `"`, the text of the route information alternates between
/// glue (even pieces) and literal contents (odd pieces). The glue before the
/// `j`-th literal:
pub open spec fn glue(q: Seq<Seq<char>>, j: int) -> Seq<char> {
    q[2 * j]
}

/// The contents of the `j`-th literal.
pub open spec fn literal(q: Seq<Seq<char>>, j: int) -> Seq<char> {
    q[2 * j + 1]
}

/// The field name that a piece of glue introduces: a comma (on every entry
/// but the first), the name, then `=`, with whitespace anywhere between.
pub open spec fn lead_name(g: Seq<char>, first: bool) -> Option<Seq<char>> {
    let t = trim(g);
    let u = if first {
        t
    } else {
        trim(t.drop_first())
    };
    if (first || (t.len() > 0 && t[0] == ',')) && u.len() > 0 && u.last() == '=' && is_ident(
        trim(u.drop_last()),
    ) {
        Some(trim(u.drop_last()))
    } else {
        None
    }
}

/// The glue after the last literal: whitespace, with one comma allowed where
/// there was an entry.
pub open spec fn is_tail(g: Seq<char>, first: bool) -> bool {
    trim(g).len() == 0 || (!first && trim(g) == seq![','])
}

/// The entries `name = "value"` of the route information, in order, where
/// the text is a comma-separated list of them. A value holds no `"` and no
/// backslash: scope and path are route segments that are used exactly as
/// written, with nothing decoded or normalized, so a value that would need
/// an escape sequence decoded first is refused as malformed rather than
/// guessed at.
pub open spec fn info_entries(s: Seq<char>) -> Option<Seq<(Seq<char>, Seq<char>)>> {
    let q = split(s, '"');
    let k = (q.len() - 1) / 2;
    if q.len() % 2 == 1 && (forall|j: int|
        #![trigger glue(q, j)]
        0 <= j < k ==> lead_name(glue(q, j), j == 0) is Some) && (forall|j: int|
        0 <= j < k ==> !(#[trigger] literal(q, j)).contains('\\')) && is_tail(q[2 * k], k == 0) {
        Some(Seq::new(k as nat, |j: int| (lead_name(glue(q, j), j == 0)->0, literal(q, j))))
    } else {
        None
    }
}

pub open spec fn entries_view(v: Seq<(String, String)>) -> Seq<(Seq<char>, Seq<char>)> {
    v.map_values(|e: (String, String)| (e.0@, e.1@))
}

/// The name that the glue `cs[lo..hi]` introduces.
fn entry_name(cs: &Vec<char>, lo: usize, hi: usize, first: bool) -> (r: Option<String>)
    requires
        lo <= hi <= cs@.len(),
    ensures
        match lead_name(cs@.subrange(lo as int, hi as int), first) {
            None => r is None,
            Some(name) => r matches Some(s) && s@ == name,
        },
{
    let (a, b) = trim_bounds(cs, lo, hi);
    let (a2, b2) = if first {
        (a, b)
    } else {
        if a < b && cs[a] == ',' {
            assert(cs@.subrange(a as int, b as int).drop_first() =~= cs@.subrange(a + 1, b as int));
            trim_bounds(cs, a + 1, b)
        } else {
            return None;
        }
    };
    if !(a2 < b2 && cs[b2 - 1] == '=') {
        return None;
    }
    assert(cs@.subrange(a2 as int, b2 as int).drop_last() =~= cs@.subrange(a2 as int, b2 - 1));
    let (a3, b3) = trim_bounds(cs, a2, b2 - 1);
    if !ident_at(cs, a3, b3) {
        return None;
    }
    Some(string_of_range(cs, a3, b3))
}

/// Whether `cs[lo..hi]` holds no backslash.
fn no_backslash(cs: &Vec<char>, lo: usize, hi: usize) -> (r: bool)
    requires
        lo <= hi <= cs@.len(),
    ensures
        r == !cs@.subrange(lo as int, hi as int).contains('\\'),
{
    let mut i: usize = lo;
    while i < hi
        invariant
            lo <= i <= hi <= cs@.len(),
            forall|j: int| lo <= j < i ==> cs@[j] != '\\',
        decreases hi - i,
    {
        if cs[i] == '\\' {
            assert(cs@.subrange(lo as int, hi as int)[i - lo] == '\\');
            return false;
        }
        i = i + 1;
    }
    assert forall|j: int| 0 <= j < hi - lo implies cs@.subrange(lo as int, hi as int)[j]
        != '\\' by {
        assert(cs@.subrange(lo as int, hi as int)[j] == cs@[lo + j]);
    }
    true
}

/// Parses the entries of the route information.
#[verifier::loop_isolation(false)]
pub fn parse_entries(text: &str) -> (r: Option<Vec<(String, String)>>)
    ensures
        match info_entries(text@) {
            None => r is None,
            Some(es) => r matches Some(v) && entries_view(v@) == es,
        },
{
    let cs = chars_of(text);
    let n = cs.len();
    assert(cs@.subrange(0, n as int) =~= text@);
    let ranges = split_ranges(&cs, 0, n, '"');
    let ghost q = split(text@, '"');
    assert(pieces(cs@, ranges@) == q);
    if ranges.len() % 2 == 0 {
        return None;
    }
    let k: usize = (ranges.len() - 1) / 2;
    let mut out: Vec<(String, String)> = Vec::new();
    let mut j: usize = 0;
    while j < k
        invariant
            j <= k,
            entries_view(out@) == Seq::new(
                j as nat,
                |i: int| (lead_name(glue(q, i), i == 0)->0, literal(q, i)),
            ),
            forall|i: int| #![trigger glue(q, i)] 0 <= i < j ==> lead_name(glue(q, i), i == 0) is Some,
            forall|i: int| 0 <= i < j ==> !(#[trigger] literal(q, i)).contains('\\'),
        decreases k - j,
    {
        let (glo, ghi) = ranges[2 * j];
        assert(glue(q, j as int) == cs@.subrange(glo as int, ghi as int));
        let name = match entry_name(&cs, glo, ghi, j == 0) {
            Some(name) => name,
            None => {
                return None;
            },
        };
        let (vlo, vhi) = ranges[2 * j + 1];
        assert(literal(q, j as int) == cs@.subrange(vlo as int, vhi as int));
        if !no_backslash(&cs, vlo, vhi) {
            return None;
        }
        let value = string_of_range(&cs, vlo, vhi);
        assert(name@ == lead_name(glue(q, j as int), j == 0)->0);
        assert(value@ == literal(q, j as int));
        let ghost before = entries_view(out@);
        let ghost entry = (name@, value@);
        out.push((name, value));
        assert(entries_view(out@) =~= before.push(entry));
        assert(entries_view(out@) =~= Seq::new(
            (j + 1) as nat,
            |i: int| (lead_name(glue(q, i), i == 0)->0, literal(q, i)),
        ));
        j = j + 1;
    }
    let (tlo, thi) = ranges[2 * k];
    assert(q[2 * k] == cs@.subrange(tlo as int, thi as int));
    let (a, b) = trim_bounds(&cs, tlo, thi);
    if a == b {
        return Some(out);
    }
    if k > 0 && b == a + 1 && cs[a] == ',' {
        assert(cs@.subrange(a as int, b as int) =~= seq![',']);
        return Some(out);
    }
    assert(!is_tail(q[2 * k], k == 0)) by {
        if k > 0 && cs@.subrange(a as int, b as int) == seq![','] {
            assert(cs@.subrange(a as int, b as int).len() == 1);
            assert(cs@.subrange(a as int, b as int)[0] == cs@[a as int]);
        }
    }
    None
}

/// Whether some entry is named `name`.
pub open spec fn has_field(es: Seq<(Seq<char>, Seq<char>)>, name: Seq<char>) -> bool {
    exists|j: int| 0 <= j < es.len() && (#[trigger] es[j]).0 == name
}

/// The value of the entry named `name`.
pub open spec fn field_value(es: Seq<(Seq<char>, Seq<char>)>, name: Seq<char>) -> Seq<char> {
    es[choose|j: int| 0 <= j < es.len() && (#[trigger] es[j]).0 == name].1
}

/// The scope and path that the entries give: every entry is `scope` or
/// `path`, neither comes twice, both come, and neither is empty.
pub open spec fn info_fields(es: Seq<(Seq<char>, Seq<char>)>) -> Result<
    (Seq<char>, Seq<char>),
    DescriptorError,
> {
    if exists|j: int|
        0 <= j < es.len() && (#[trigger] es[j]).0 != "scope"@ && es[j].0 != "path"@ {
        Err(DescriptorError::UnknownField)
    } else if exists|i: int, j: int| 0 <= i < j < es.len() && (#[trigger] es[i]).0 == (#[trigger] es[j]).0 {
        Err(DescriptorError::DuplicateField)
    } else if !has_field(es, "scope"@) || !has_field(es, "path"@) {
        Err(DescriptorError::MissingField)
    } else if field_value(es, "scope"@).len() == 0 || field_value(es, "path"@).len() == 0 {
        Err(DescriptorError::EmptyField)
    } else {
        Ok((field_value(es, "scope"@), field_value(es, "path"@)))
    }
}

/// What the route information `s` says, or why it is refused.
pub open spec fn restful_info(s: Seq<char>) -> Result<(Seq<char>, Seq<char>), DescriptorError> {
    match info_entries(s) {
        None => Err(DescriptorError::Malformed(Attribute::RestfulInfo)),
        Some(es) => info_fields(es),
    }
}

/// The route information of a resource.
pub struct RestfulInfo {
    pub scope: String,
    pub path: String,
}

/// Parses `scope = "/v1", path = "item"` (in either order, with a trailing
/// comma allowed).
pub fn actix_restful_info(args: &str) -> (r: Result<RestfulInfo, DescriptorError>)
    ensures
        match restful_info(args@) {
            Ok((scope, path)) => r matches Ok(info) && info.scope@ == scope && info.path@ == path,
            Err(e) => r matches Err(f) && f == e,
        },
{
    let es = match parse_entries(args) {
        Some(es) => es,
        None => {
            return Err(DescriptorError::Malformed(Attribute::RestfulInfo));
        },
    };
    let ghost ev = entries_view(es@);
    let scope_key = String::from_str("scope");
    let path_key = String::from_str("path");
    proof {
        reveal_strlit("scope");
        reveal_strlit("path");
        assert("scope"@.len() != "path"@.len());
    }
    let mut i: usize = 0;
    while i < es.len()
        invariant
            i <= es@.len(),
            ev == entries_view(es@),
            info_entries(args@) == Some(ev),
            "scope"@ != "path"@,
            scope_key@ == "scope"@,
            path_key@ == "path"@,
            forall|j: int| 0 <= j < i ==> (#[trigger] ev[j]).0 == "scope"@ || ev[j].0 == "path"@,
        decreases es@.len() - i,
    {
        if !(es[i].0 == scope_key) && !(es[i].0 == path_key) {
            assert(ev[i as int].0 != "scope"@ && ev[i as int].0 != "path"@);
            return Err(DescriptorError::UnknownField);
        }
        i = i + 1;
    }
    let mut scope_at: Option<usize> = None;
    let mut path_at: Option<usize> = None;
    let mut i: usize = 0;
    while i < es.len()
        invariant
            i <= es@.len(),
            ev == entries_view(es@),
            info_entries(args@) == Some(ev),
            "scope"@ != "path"@,
            scope_key@ == "scope"@,
            path_key@ == "path"@,
            forall|j: int| 0 <= j < es@.len() ==> (#[trigger] ev[j]).0 == "scope"@ || ev[j].0 == "path"@,
            forall|a: int, b: int| 0 <= a < b < i ==> (#[trigger] ev[a]).0 != (#[trigger] ev[b]).0,
            scope_at matches Some(x) ==> x < i && ev[x as int].0 == "scope"@,
            scope_at is None ==> forall|j: int| 0 <= j < i ==> (#[trigger] ev[j]).0 != "scope"@,
            path_at matches Some(x) ==> x < i && ev[x as int].0 == "path"@,
            path_at is None ==> forall|j: int| 0 <= j < i ==> (#[trigger] ev[j]).0 != "path"@,
        decreases es@.len() - i,
    {
        if es[i].0 == scope_key {
            match scope_at {
                Some(x) => {
                    assert(ev[x as int].0 == ev[i as int].0);
                    return Err(DescriptorError::DuplicateField);
                },
                None => {
                    scope_at = Some(i);
                },
            }
        } else {
            match path_at {
                Some(x) => {
                    assert(ev[x as int].0 == ev[i as int].0);
                    return Err(DescriptorError::DuplicateField);
                },
                None => {
                    path_at = Some(i);
                },
            }
        }
        i = i + 1;
    }
    match (scope_at, path_at) {
        (Some(x), Some(y)) => {
            assert(has_field(ev, "scope"@));
            assert(has_field(ev, "path"@));
            assert(field_value(ev, "scope"@) == ev[x as int].1) by {
                let c = choose|j: int| 0 <= j < ev.len() && (#[trigger] ev[j]).0 == "scope"@;
                assert(c == x as int) by {
                    if c < x as int {
                        assert(ev[c].0 != ev[x as int].0);
                    } else if c > x as int {
                        assert(ev[x as int].0 != ev[c].0);
                    }
                }
            }
            assert(field_value(ev, "path"@) == ev[y as int].1) by {
                let c = choose|j: int| 0 <= j < ev.len() && (#[trigger] ev[j]).0 == "path"@;
                assert(c == y as int) by {
                    if c < y as int {
                        assert(ev[c].0 != ev[y as int].0);
                    } else if c > y as int {
                        assert(ev[y as int].0 != ev[c].0);
                    }
                }
            }
            if es[x].1.as_str().is_empty() || es[y].1.as_str().is_empty() {
                return Err(DescriptorError::EmptyField);
            }
            Ok(RestfulInfo { scope: es[x].1.clone(), path: es[y].1.clone() })
        },
        _ => Err(DescriptorError::MissingField),
    }
}

} // verus!
