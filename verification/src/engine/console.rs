//! Console and exception capture to a named trace: how one console call or
//! thrown exception becomes a line of text, and where a trace is written.

use vstd::prelude::*;
use crate::cdp::protocol::runtime::{RemoteObject, RemoteValue};
use crate::paths::{join, join_path, PathStyle};
use crate::text::{join_seqs, join_strings};

verus! {

/// The longest a console capture runs before it stops by itself.
pub const MAX_CAPTURE_DURATION_MS: u64 = 300000;

/// What a finished console capture reports.
pub struct ConsoleCaptureSummary {
    pub name: String,
    pub entry_count: usize,
    pub path: String,
}

/// How a console argument reads: a string value as itself, any other value
/// as its JSON text, else its description, else `<type>`.
pub open spec fn spec_render_arg(obj: RemoteObject) -> Seq<char> {
    match obj.value {
        Some(RemoteValue::Str(s)) => s@,
        Some(RemoteValue::Json(j)) => j@,
        None => match obj.description {
            Some(d) => d@,
            None => "<"@ + obj.kind@ + ">"@,
        },
    }
}

/// Renders one console argument.
pub fn render_arg(obj: &RemoteObject) -> (r: String)
    ensures
        r@ == spec_render_arg(*obj),
{
    match &obj.value {
        Some(RemoteValue::Str(s)) => s.clone(),
        Some(RemoteValue::Json(j)) => j.clone(),
        None => match &obj.description {
            Some(d) => d.clone(),
            None => {
                let mut t = "<".to_owned();
                t.append(obj.kind.as_str());
                t.append(">");
                t
            },
        },
    }
}

/// The text of a console call: its arguments rendered and joined by
/// single spaces.
pub fn console_text(args: &Vec<RemoteObject>) -> (r: String)
    ensures
        r@ == join_seqs(args@.map_values(|a: RemoteObject| spec_render_arg(a)), " "@),
{
    let mut parts: Vec<String> = Vec::new();
    let mut i: usize = 0;
    while i < args.len()
        invariant
            i <= args.len(),
            parts@.map_values(|x: String| x@) == args@.take(i as int).map_values(|a: RemoteObject| spec_render_arg(a)),
        decreases args.len() - i,
    {
        let ghost before = parts@.map_values(|x: String| x@);
        let part = render_arg(&args[i]);
        parts.push(part);
        assert(parts@.map_values(|x: String| x@) =~= before.push(spec_render_arg(args@[i as int])));
        assert(args@.take(i + 1).map_values(|a: RemoteObject| spec_render_arg(a))
            =~= args@.take(i as int).map_values(|a: RemoteObject| spec_render_arg(a)).push(spec_render_arg(args@[i as int])));
        i += 1;
    }
    assert(args@.take(args.len() as int) =~= args@);
    join_strings(&parts, " ")
}

/// The text of a thrown exception: the thrown value's description when it
/// has one (the details' own text is usually just "Uncaught"), else that
/// text.
pub fn exception_text(thrown_description: Option<String>, details_text: String) -> (r: String)
    ensures
        r@ == match thrown_description {
            Some(d) => d@,
            None => details_text@,
        },
{
    match thrown_description {
        Some(d) => d,
        None => details_text,
    }
}

/// Where traces live under the per-user data directory `base`:
/// `<base>/aib/traces`.
pub open spec fn spec_traces_dir(base: Seq<char>, style: PathStyle) -> Seq<char> {
    join(join(base, "aib"@, style), "traces"@, style)
}

/// The directory that holds every trace.
pub fn traces_dir(base: &str, style: &PathStyle) -> (r: String)
    ensures
        r@ == spec_traces_dir(base@, *style),
{
    let a = join_path(base, "aib", style);
    join_path(a.as_str(), "traces", style)
}

/// The file of the trace `name`: `<name>.jsonl` in the traces directory.
pub fn trace_path(base: &str, name: &str, style: &PathStyle) -> (r: String)
    ensures
        r@ == join(spec_traces_dir(base@, *style), name@ + ".jsonl"@, *style),
{
    let dir = traces_dir(base, style);
    let mut file = name.to_owned();
    file.append(".jsonl");
    join_path(dir.as_str(), file.as_str(), style)
}

} // verus!
