//! Reusable prompt files: plain Markdown, named by file stem, looked up in
//! an ordered list of directories where the first hit wins.

use vstd::prelude::*;
use crate::agent::error::AgentError;
use crate::paths::{join, join_path, PathStyle};
use crate::text::{
    all_whitespace_from, all_ws, chars_of, find, find_first, has_prefix, occurs_at, starts_with,
    string_of, trim_start, trim_start_chars,
};

verus! {

/// A resolved skill: its name and its body.
pub struct Skill {
    pub name: String,
    pub body: String,
}

/// What remains of a front-matter file after its opening `---` line:
/// the body after the closing `---` line, empty when only whitespace
/// follows a final `---`, or `None` when the block never closes.
pub open spec fn after_front_matter(rest: Seq<char>) -> Option<Seq<char>> {
    match find_first(rest, "\n---\n"@) {
        Some(e) => Some(trim_start(rest.skip(e + "\n---\n"@.len()))),
        None => match find_first(rest, "\n---"@) {
            Some(e) => if all_ws(rest.skip(e + "\n---"@.len())) { Some(Seq::empty()) } else { None },
            None => None,
        },
    }
}

/// `raw` without a leading `---` front-matter block, if it has one.
pub open spec fn spec_strip_front_matter(raw: Seq<char>) -> Seq<char> {
    let t = trim_start(raw);
    if has_prefix(t, "---\n"@) {
        match after_front_matter(t.skip("---\n"@.len() as int)) {
            Some(body) => body,
            None => raw,
        }
    } else {
        raw
    }
}

fn strip_block(rest: &Vec<char>) -> (r: Option<String>)
    ensures
        match (r, after_front_matter(rest@)) {
            (Some(x), Some(y)) => x@ == y,
            (None, None) => true,
            _ => false,
        },
{
    let close = chars_of("\n---\n");
    match find(rest, &close) {
        Some(e) => {
            assert(occurs_at(rest@, close@, e as int));
            let n = rest.len();
            assert(e + close.len() <= n);
            let after = string_of(rest, e + close.len(), rest.len());
            let av = chars_of(after.as_str());
            assert(av@ =~= rest@.skip(e + close@.len()));
            let tr = trim_start_chars(&av);
            let out = string_of(&tr, 0, tr.len());
            assert(tr@.subrange(0, tr@.len() as int) =~= tr@);
            Some(out)
        },
        None => {
            let close2 = chars_of("\n---");
            match find(rest, &close2) {
                Some(e) => {
                    assert(occurs_at(rest@, close2@, e as int));
                    let n = rest.len();
                    assert(e + close2.len() <= n);
                    if all_whitespace_from(rest, e + close2.len()) {
                        let out = String::new();
                        assert(out@ =~= Seq::<char>::empty());
                        Some(out)
                    } else {
                        None
                    }
                },
                None => None,
            }
        },
    }
}

/// Strips a leading `---\n...\n---\n` front-matter block, if present.
pub fn strip_front_matter(raw: &str) -> (r: String)
    ensures
        r@ == spec_strip_front_matter(raw@),
{
    let v = chars_of(raw);
    let t = trim_start_chars(&v);
    let open = chars_of("---\n");
    if starts_with(&t, &open) {
        let rest_s = string_of(&t, open.len(), t.len());
        let rest = chars_of(rest_s.as_str());
        assert(rest@ =~= t@.skip(open@.len() as int));
        match strip_block(&rest) {
            Some(body) => return body,
            None => {},
        }
    }
    let r = string_of(&v, 0, v.len());
    assert(v@.subrange(0, v@.len() as int) =~= v@);
    r
}

/// The skill `name` resolves to, given what each search directory holds
/// for it in order (`None` where the directory has no `<name>.md`): the
/// first directory that has it wins.
pub open spec fn spec_resolve_one(name: Seq<char>, found: Seq<Option<String>>) -> Option<(Seq<char>, Seq<char>)>
    decreases found.len(),
{
    if found.len() == 0 {
        None
    } else {
        match found[0] {
            Some(raw) => Some((name, spec_strip_front_matter(raw@))),
            None => spec_resolve_one(name, found.drop_first()),
        }
    }
}

/// Resolves one skill from what each search directory holds for it,
/// failing with `UnknownSkill` when none does.
pub fn resolve_one(name: &str, found: &Vec<Option<String>>) -> (r: Result<Skill, AgentError>)
    ensures
        match (r, spec_resolve_one(name@, found@)) {
            (Ok(skill), Some((n, b))) => skill.name@ == n && skill.body@ == b,
            (Err(AgentError::UnknownSkill(n)), None) => n@ == name@,
            _ => false,
        },
{
    let mut i: usize = 0;
    assert(found@.skip(0) =~= found@);
    while i < found.len()
        invariant
            i <= found.len(),
            spec_resolve_one(name@, found@) == spec_resolve_one(name@, found@.skip(i as int)),
        decreases found.len() - i,
    {
        assert(found@.skip(i as int).drop_first() =~= found@.skip(i + 1));
        match &found[i] {
            Some(raw) => {
                let body = strip_front_matter(raw.as_str());
                return Ok(Skill { name: name.to_owned(), body });
            },
            None => {},
        }
        i += 1;
    }
    Err(AgentError::UnknownSkill(name.to_owned()))
}

/// Resolves every name in order, each from its own directory findings,
/// stopping at the first name that no directory has.
pub fn resolve(names: &Vec<String>, found: &Vec<Vec<Option<String>>>) -> (r: Result<Vec<Skill>, AgentError>)
    requires
        names.len() == found.len(),
    ensures
        match r {
            Ok(skills) => skills.len() == names.len() && forall|i: int| 0 <= i < names.len() ==>
                spec_resolve_one(names@[i]@, found@[i]@) == Some(((#[trigger] skills@[i]).name@, skills@[i].body@)),
            Err(AgentError::UnknownSkill(n)) => exists|i: int| 0 <= i < names.len()
                && spec_resolve_one(names@[i]@, found@[i]@) is None
                && n@ == names@[i]@
                && forall|j: int| 0 <= j < i ==> (#[trigger] spec_resolve_one(names@[j]@, found@[j]@)) is Some,
            Err(_) => false,
        },
{
    let mut out: Vec<Skill> = Vec::new();
    let mut i: usize = 0;
    while i < names.len()
        invariant
            i <= names.len(),
            names.len() == found.len(),
            out.len() == i,
            forall|k: int| 0 <= k < i ==>
                spec_resolve_one(names@[k]@, found@[k]@) == Some(((#[trigger] out@[k]).name@, out@[k].body@)),
        decreases names.len() - i,
    {
        match resolve_one(names[i].as_str(), &found[i]) {
            Ok(skill) => {
                out.push(skill);
            },
            Err(e) => {
                proof {
                    assert forall|j: int| 0 <= j < i implies (#[trigger] spec_resolve_one(names@[j]@, found@[j]@)) is Some by {
                        assert(spec_resolve_one(names@[j]@, found@[j]@) == Some((out@[j].name@, out@[j].body@)));
                    }
                }
                return Err(e);
            },
        }
        i += 1;
    }
    Ok(out)
}

/// The skill search path, in priority order: the project-local
/// `./.truewright/skills`, then `skills` under the per-user data
/// directory, then each extra directory in order.
pub fn default_search_dirs(truewright_data_dir: &str, extra: &Vec<String>, style: &PathStyle) -> (r: Vec<String>)
    ensures
        r@.map_values(|x: String| x@) == seq!["./.truewright/skills"@, join(truewright_data_dir@, "skills"@, *style)]
            + extra@.map_values(|x: String| x@),
{
    let mut dirs: Vec<String> = Vec::new();
    dirs.push("./.truewright/skills".to_owned());
    dirs.push(join_path(truewright_data_dir, "skills", style));
    let ghost head = seq!["./.truewright/skills"@, join(truewright_data_dir@, "skills"@, *style)];
    assert(dirs@.map_values(|x: String| x@) =~= head);
    let mut i: usize = 0;
    while i < extra.len()
        invariant
            i <= extra.len(),
            dirs@.map_values(|x: String| x@) == head + extra@.take(i as int).map_values(|x: String| x@),
        decreases extra.len() - i,
    {
        let ghost before = dirs@.map_values(|x: String| x@);
        dirs.push(extra[i].clone());
        assert(dirs@.map_values(|x: String| x@) =~= before.push(extra@[i as int]@));
        assert(extra@.take(i + 1).map_values(|x: String| x@)
            =~= extra@.take(i as int).map_values(|x: String| x@).push(extra@[i as int]@));
        i += 1;
    }
    assert(extra@.take(extra.len() as int) =~= extra@);
    dirs
}

/// The file a skill is read from in one search directory: `<name>.md`.
pub fn skill_path(dir: &str, name: &str, style: &PathStyle) -> (r: String)
    ensures
        r@ == join(dir@, name@ + ".md"@, *style),
{
    let mut file = name.to_owned();
    file.append(".md");
    join_path(dir, file.as_str(), style)
}

} // verus!
