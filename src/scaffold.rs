//! The starter-file generator: a model source file for a new resource,
//! stamped from a template with the resource's name.

use vstd::prelude::*;
use crate::text::{chars_of, concat, push_char, range_eq};

verus! {

/// The commands of the generator.
#[derive(Debug)]
pub enum Opt {
    /// Write `<name>.rs`, a starter model for the resource `name`.
    GenerateModel { name: String },
}

/// `s` with every occurrence of `pattern` replaced by `with`, scanning from
/// the left; the replaced text is not scanned again.
pub open spec fn replaced(s: Seq<char>, pattern: Seq<char>, with: Seq<char>) -> Seq<char>
    decreases s.len(),
{
    if s.len() == 0 || pattern.len() == 0 {
        s
    } else if pattern.len() <= s.len() && s.subrange(0, pattern.len() as int) == pattern {
        with + replaced(s.subrange(pattern.len() as int, s.len() as int), pattern, with)
    } else {
        seq![s[0]] + replaced(s.drop_first(), pattern, with)
    }
}

/// Replaces every occurrence of `pattern` in `text` by `with`.
pub fn replace_all(text: &str, pattern: &str, with: &str) -> (r: String)
    ensures
        r@ == replaced(text@, pattern@, with@),
{
    let cs = chars_of(text);
    let ps = chars_of(pattern);
    let n = cs.len();
    let m = ps.len();
    if m == 0 {
        return text.to_owned();
    }
    let mut r = String::new();
    let mut i: usize = 0;
    assert(cs@.subrange(0, n as int) =~= text@);
    while i < n
        invariant
            i <= n == cs@.len(),
            m == ps@.len() > 0,
            ps@ == pattern@,
            replaced(text@, pattern@, with@) == r@ + replaced(
                cs@.subrange(i as int, n as int),
                pattern@,
                with@,
            ),
        decreases n - i,
    {
        let ghost rest = cs@.subrange(i as int, n as int);
        if m <= n - i && range_eq(&cs, i, &ps, 0, m) {
            assert(ps@.subrange(0, m as int) =~= ps@);
            assert(rest.subrange(0, m as int) =~= cs@.subrange(i as int, i + m));
            assert(rest.subrange(m as int, rest.len() as int) =~= cs@.subrange(i + m, n as int));
            r.append(with);
            i = i + m;
        } else {
            assert(ps@.subrange(0, m as int) =~= ps@);
            assert(m <= rest.len() ==> rest.subrange(0, m as int) =~= cs@.subrange(
                i as int,
                i + m,
            ));
            assert(rest.drop_first() =~= cs@.subrange(i + 1, n as int));
            push_char(&mut r, cs[i]);
            i = i + 1;
        }
    }
    assert(cs@.subrange(n as int, n as int) =~= Seq::<char>::empty());
    assert(r@ + Seq::<char>::empty() =~= r@);
    r
}

/// What `str::to_lowercase` makes of `s`.
pub uninterp spec fn lower_of(s: Seq<char>) -> Seq<char>;

/// Relies on `str::to_lowercase`: the result depends on the characters of
/// `s` alone.
#[verifier::external_body]
fn lowercase(s: &str) -> (r: String)
    ensures
        r@ == lower_of(s@),
{
    s.to_lowercase()
}

/// The template of a starter model: `{entity}` stands for the resource's
/// name, `{entity_lower_case}` for that name in lower case.
pub const MODEL_TEMPLATE: &'static str = "
use actix_restful::model::{Model, NewModel, RestfulPathInfo, UpdatableModel};

pub struct AppState {}

#[derive(Default)]
pub struct FindQuery {}
pub struct ListQuery {}
pub struct DeleteQuery {}
pub struct SaveQuery {}
pub struct UpdateQuery {}
pub type Id = i64;
pub type ListResult = Vec<{entity}>;
pub type DeleteResult = {entity};

pub struct {entity} {
    pub id: Id,
}

impl RestfulPathInfo for {entity} {
    fn path() -> String {
        String::from(\"{entity_lower_case}\")
    }

    fn scope() -> &'static str {
        \"/v1\"
    }
}

impl Model<Id, FindQuery, ListQuery, ListResult, DeleteQuery, DeleteResult, AppState> for {entity} {
    fn find(id: Id, _query: &FindQuery, _state: &AppState) -> anyhow::Result<Box<{entity}>> {
        // fetch the entity with this id
        Err(anyhow::Error::msg(\"not found\"))
    }

    fn list(_query: &ListQuery, _state: &AppState) -> anyhow::Result<ListResult> {
        // list the entities
        Ok(Vec::new())
    }

    fn delete(self, _query: &DeleteQuery, _state: &AppState) -> anyhow::Result<DeleteResult> {
        // delete, hard or soft
        Ok(self)
    }
}

pub struct New{entity} {}

impl NewModel<{entity}, SaveQuery, AppState> for New{entity} {
    fn save(self, _query: &SaveQuery, _state: &AppState) -> anyhow::Result<{entity}> {
        // persist, and return the entity
        Ok({entity} { id: 1 })
    }
}

pub struct Updatable{entity} {
    pub id: Id,
}

impl UpdatableModel<Updatable{entity}, UpdateQuery, AppState> for Updatable{entity} {
    fn update(self, _query: &UpdateQuery, _state: &AppState) -> anyhow::Result<Updatable{entity}> {
        // store the new fields
        Ok(self)
    }
}
";

/// The starter model for `name`, given that name in lower case.
pub fn fill_model_template(name: &str, lower_name: &str) -> (r: String)
    ensures
        r@ == replaced(
            replaced(MODEL_TEMPLATE@, "{entity}"@, name@),
            "{entity_lower_case}"@,
            lower_name@,
        ),
{
    let first = replace_all(MODEL_TEMPLATE, "{entity}", name);
    replace_all(first.as_str(), "{entity_lower_case}", lower_name)
}

/// The starter model for `name`.
pub fn render_model(name: &str) -> (r: String)
    ensures
        r@ == replaced(
            replaced(MODEL_TEMPLATE@, "{entity}"@, name@),
            "{entity_lower_case}"@,
            lower_of(name@),
        ),
{
    let lower = lowercase(name);
    fill_model_template(name, lower.as_str())
}

/// The file that the starter model of `name` goes to.
pub fn model_file_name(name: &str) -> (r: String)
    ensures
        r@ == name@ + ".rs"@,
{
    concat(name, ".rs")
}

impl Opt {
    /// The file to write and its contents.
    pub fn output(&self) -> (r: (String, String))
        ensures
            match self {
                Opt::GenerateModel { name } => r.0@ == name@ + ".rs"@ && r.1@ == replaced(
                    replaced(MODEL_TEMPLATE@, "{entity}"@, name@),
                    "{entity_lower_case}"@,
                    lower_of(name@),
                ),
            },
    {
        match self {
            Opt::GenerateModel { name } => (
                model_file_name(name.as_str()),
                render_model(name.as_str()),
            ),
        }
    }
}

} // verus!
