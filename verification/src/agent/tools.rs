//! The tool surface offered to the driver model, and the planning of one
//! tool call: which session action it asks for, or which text answers it
//! straight away. Running the action is the caller's part; the functions
//! at the end turn what the action returned into the tool's result.

use vstd::prelude::*;
use crate::agent::error::AgentError;
use crate::engine::session::PageInfo;
use crate::engine::yaml_runner::RunSummary;
use crate::json::{bool_field, json_bool_field, json_parse_error, json_str_field, json_u64_field, opt_chars, parse_error, str_field, u64_field};
use crate::text::{debug_quoted, debug_str, decimal, has_prefix, has_suffix, join_seqs, join_strings, push_char, str_eq, u64_decimal};

verus! {

/// How long `wait_for` polls when the call names no `timeout_ms`.
pub const DEFAULT_WAIT_TIMEOUT_MS: u64 = 5000;

/// One tool offered to the model: its name, what it does, and its
/// parameters as a JSON Schema document (JSON text).
pub struct ToolDef {
    pub name: String,
    pub description: String,
    pub parameters: String,
}

/// One parameter of a tool: its name, its JSON type, and its description
/// when it has one.
pub type ParamModel = (Seq<char>, Seq<char>, Option<Seq<char>>);

/// `s` between double quotes.
pub open spec fn quoted(s: Seq<char>) -> Seq<char> {
    seq!['"'] + s + seq!['"']
}

/// How one parameter reads inside `properties`: its quoted name, then an
/// object with its description (when it has one) and its type.
pub open spec fn param_json(p: ParamModel) -> Seq<char> {
    quoted(p.0) + ":{"@ + match p.2 {
        Some(d) => "\"description\":"@ + quoted(d) + ","@,
        None => Seq::empty(),
    } + "\"type\":"@ + quoted(p.1) + "}"@
}

/// The JSON Schema text of a tool's parameters: an object whose
/// `properties` are `params` and whose `required` list is `required`
/// (left out when empty), keys in sorted order as `serde_json` writes them.
pub open spec fn schema_json(params: Seq<ParamModel>, required: Seq<Seq<char>>) -> Seq<char> {
    "{\"properties\":{"@ + join_seqs(params.map_values(|p: ParamModel| param_json(p)), ","@) + "}"@
        + (if required.len() > 0 {
            ",\"required\":["@ + join_seqs(required.map_values(|r: Seq<char>| quoted(r)), ","@) + "]"@
        } else {
            Seq::empty()
        })
        + ",\"type\":\"object\"}"@
}

/// Every tool's parameters and required parameter names, in the order the
/// tools are offered.
#[verifier::opaque]
pub open spec fn tool_schemas() -> Seq<(Seq<ParamModel>, Seq<Seq<char>>)> {
    seq![
        (seq![("url"@, "string"@, None)], seq!["url"@]),
        (seq![], seq![]),
        (seq![("ref"@, "string"@, None)], seq!["ref"@]),
        (seq![("ref"@, "string"@, None)], seq!["ref"@]),
        (seq![("ref"@, "string"@, None), ("submit"@, "boolean"@, None), ("text"@, "string"@, None)], seq!["ref"@, "text"@]),
        (seq![("key"@, "string"@, None)], seq!["key"@]),
        (seq![("text"@, "string"@, None), ("timeout_ms"@, "integer"@, Some("Defaults to 5000."@))], seq!["text"@]),
        (seq![("present"@, "boolean"@, Some("Defaults to true."@)), ("text"@, "string"@, None)], seq!["text"@]),
        (seq![("guidance"@, "string"@, Some("Optional: what to look for, used when the screenshot is vision-interpreted."@))], seq![]),
        (seq![], seq![]),
        (seq![("page_id"@, "string"@, None)], seq!["page_id"@]),
        (seq![("source"@, "string"@, None)], seq!["source"@]),
        (seq![("summary"@, "string"@, None)], seq!["summary"@]),
        (seq![("reason"@, "string"@, None)], seq!["reason"@])
    ]
}

/// Whether `name` is the name of an offered tool.
pub open spec fn offered(name: Seq<char>) -> bool {
    exists|i: int| 0 <= i < tool_table().len() && tool_table()[i].0 == name
}

/// The parameter schema text of the tool at `i`.
pub open spec fn tool_schema(i: int) -> Seq<char> {
    schema_json(tool_schemas()[i].0, tool_schemas()[i].1)
}

/// The names of the parameters.
pub open spec fn param_names(params: Seq<ParamModel>) -> Seq<Seq<char>> {
    params.map_values(|p: ParamModel| p.0)
}

/// Whether every required name is the name of one of the parameters.
pub open spec fn required_declared(params: Seq<ParamModel>, required: Seq<Seq<char>>) -> bool {
    forall|j: int| 0 <= j < required.len() ==> param_names(params).contains(#[trigger] required[j])
}

proof fn lemma_schema_text(ps: Seq<ParamModel>, rq: Seq<Seq<char>>)
    ensures
        has_prefix(schema_json(ps, rq), "{\"properties\":{"@),
        has_suffix(schema_json(ps, rq), ",\"type\":\"object\"}"@),
{
    let text = schema_json(ps, rq);
    let head = "{\"properties\":{"@;
    let tail = ",\"type\":\"object\"}"@;
    let middle = join_seqs(ps.map_values(|p: ParamModel| param_json(p)), ","@) + "}"@
        + (if rq.len() > 0 {
            ",\"required\":["@ + join_seqs(rq.map_values(|r: Seq<char>| quoted(r)), ","@) + "]"@
        } else {
            Seq::empty()
        });
    assert(text =~= head + middle + tail);
    assert(text.take(head.len() as int) =~= head);
    assert(text.skip(text.len() - tail.len()) =~= tail);
}

proof fn lemma_required_declared(i: int)
    requires
        0 <= i < 14,
    ensures
        tool_schemas().len() == 14,
        required_declared(tool_schemas()[i].0, tool_schemas()[i].1),
{
    reveal(tool_schemas);
    let ps = tool_schemas()[i].0;
    let rq = tool_schemas()[i].1;
    assert forall|j: int| 0 <= j < rq.len() implies param_names(ps).contains(#[trigger] rq[j]) by {
        let names = param_names(ps);
        if i == 4 && j == 1 {
            assert(names[2] == rq[1]);
        } else if i == 7 {
            assert(names[1] == rq[0]);
        } else {
            assert(names[0] == rq[0]);
        }
    }
}

proof fn lemma_table_len()
    ensures
        tool_table().len() == 14,
{
    reveal(tool_table);
}

proof fn lemma_table_entry(i: int)
    requires
        0 <= i < 14,
    ensures
        tool_table().len() == 14,
        tool_table()[i].2 == tool_schema(i),
        i == 0 ==> tool_table()[i].0 == "navigate"@,
        i == 1 ==> tool_table()[i].0 == "snapshot"@,
        i == 2 ==> tool_table()[i].0 == "click"@,
        i == 3 ==> tool_table()[i].0 == "right_click"@,
        i == 4 ==> tool_table()[i].0 == "type"@,
        i == 5 ==> tool_table()[i].0 == "press"@,
        i == 6 ==> tool_table()[i].0 == "wait_for"@,
        i == 7 ==> tool_table()[i].0 == "assert"@,
        i == 8 ==> tool_table()[i].0 == "screenshot"@,
        i == 9 ==> tool_table()[i].0 == "list_pages"@,
        i == 10 ==> tool_table()[i].0 == "switch_page"@,
        i == 11 ==> tool_table()[i].0 == "run_yaml"@,
        i == 12 ==> tool_table()[i].0 == "task_complete"@,
        i == 13 ==> tool_table()[i].0 == "task_failed"@,
{
    reveal(tool_table);
}

/// Planning a session tool's name, with arguments that parse, never
/// reports an unknown tool: it is answered or run.
proof fn lemma_session_name_is_planned(name: Seq<char>, raw: Seq<char>)
    requires
        json_parse_error(raw) is None,
        name == "navigate"@ || name == "snapshot"@ || name == "click"@ || name == "right_click"@ || name == "type"@ || name == "press"@ || name == "wait_for"@ || name == "assert"@ || name == "screenshot"@ || name == "list_pages"@ || name == "switch_page"@ || name == "run_yaml"@,
    ensures
        !(spec_plan(name, raw, true) is UnknownTool),
{
}

/// The two tools that end the run are unknown to planning.
proof fn lemma_ending_names_are_unknown(raw: Seq<char>)
    requires
        json_parse_error(raw) is None,
    ensures
        spec_plan("task_complete"@, raw, true) is UnknownTool,
        spec_plan("task_failed"@, raw, true) is UnknownTool,
        "task_complete"@ != "task_failed"@,
{
    reveal_strlit("navigate");
    reveal_strlit("snapshot");
    reveal_strlit("click");
    reveal_strlit("right_click");
    reveal_strlit("type");
    reveal_strlit("press");
    reveal_strlit("wait_for");
    reveal_strlit("assert");
    reveal_strlit("screenshot");
    reveal_strlit("list_pages");
    reveal_strlit("switch_page");
    reveal_strlit("run_yaml");
    reveal_strlit("task_complete");
    reveal_strlit("task_failed");
    assert("task_failed"@[0] != "right_click"@[0]);
    assert("task_failed"@[0] != "switch_page"@[0]);
    assert("task_failed"@.len() != "task_complete"@.len());
}

/// Every tool's parameters form a JSON object schema (its text opens with
/// `properties` and closes with `"type":"object"`) whose required names are
/// all among its properties; and, for arguments that parse, the only
/// offered tools that planning refuses as unknown are the two that end the
/// run, `task_complete` and `task_failed`.
pub proof fn tool_schemas_are_objects_that_declare_what_they_require(i: int, raw: Seq<char>)
    requires
        0 <= i < tool_table().len(),
    ensures
        tool_table()[i].2 == schema_json(tool_schemas()[i].0, tool_schemas()[i].1),
        has_prefix(tool_table()[i].2, "{\"properties\":{"@),
        has_suffix(tool_table()[i].2, ",\"type\":\"object\"}"@),
        required_declared(tool_schemas()[i].0, tool_schemas()[i].1),
        json_parse_error(raw) is None ==> ((spec_plan(tool_table()[i].0, raw, true) is UnknownTool)
            <==> (tool_table()[i].0 == "task_complete"@ || tool_table()[i].0 == "task_failed"@)),
{
    lemma_table_len();
    lemma_table_entry(i);
    lemma_required_declared(i);
    lemma_schema_text(tool_schemas()[i].0, tool_schemas()[i].1);
    if json_parse_error(raw) is None {
        lemma_ending_names_are_unknown(raw);
        if i < 12 {
            lemma_session_name_is_planned(tool_table()[i].0, raw);
            reveal_strlit("navigate");
            reveal_strlit("snapshot");
            reveal_strlit("click");
            reveal_strlit("right_click");
            reveal_strlit("type");
            reveal_strlit("press");
            reveal_strlit("wait_for");
            reveal_strlit("assert");
            reveal_strlit("screenshot");
            reveal_strlit("list_pages");
            reveal_strlit("switch_page");
            reveal_strlit("run_yaml");
            reveal_strlit("task_complete");
            reveal_strlit("task_failed");
            assert("task_failed"@[0] != "right_click"@[0]);
            assert("task_failed"@[0] != "switch_page"@[0]);
        }
    }
}

/// A parameter given as string slices, as a model.
pub open spec fn param_view(p: (&str, &str, Option<&str>)) -> ParamModel {
    (p.0@, p.1@, match p.2 { Some(d) => Some(d@), None => None })
}

fn quoted_text(s: &str) -> (r: String)
    ensures
        r@ == quoted(s@),
{
    let mut t = String::new();
    push_char(&mut t, '"');
    t.append(s);
    push_char(&mut t, '"');
    assert(t@ =~= quoted(s@));
    t
}

fn param_text(p: &(&str, &str, Option<&str>)) -> (r: String)
    ensures
        r@ == param_json(param_view(*p)),
{
    let mut t = quoted_text(p.0);
    t.append(":{");
    let ghost head = t@;
    match p.2 {
        Some(d) => {
            t.append("\"description\":");
            let q = quoted_text(d);
            t.append(q.as_str());
            t.append(",");
        },
        None => {
            assert(t@ =~= head + Seq::<char>::empty());
        },
    }
    t.append("\"type\":");
    let k = quoted_text(p.1);
    t.append(k.as_str());
    t.append("}");
    t
}

/// Writes the schema text of `params` and `required`.
fn schema_text(params: &Vec<(&str, &str, Option<&str>)>, required: &Vec<&str>) -> (r: String)
    ensures
        r@ == schema_json(params@.map_values(|p: (&str, &str, Option<&str>)| param_view(p)),
            required@.map_values(|q: &str| q@)),
{
    let ghost pm = params@.map_values(|p: (&str, &str, Option<&str>)| param_view(p));
    let ghost rm = required@.map_values(|q: &str| q@);
    let mut parts: Vec<String> = Vec::new();
    let mut i: usize = 0;
    while i < params.len()
        invariant
            i <= params.len(),
            pm == params@.map_values(|p: (&str, &str, Option<&str>)| param_view(p)),
            parts@.map_values(|x: String| x@) == pm.take(i as int).map_values(|p: ParamModel| param_json(p)),
        decreases params.len() - i,
    {
        let ghost before = parts@.map_values(|x: String| x@);
        let t = param_text(&params[i]);
        parts.push(t);
        assert(parts@.map_values(|x: String| x@) =~= before.push(param_json(pm[i as int])));
        assert(pm.take(i + 1).map_values(|p: ParamModel| param_json(p))
            =~= pm.take(i as int).map_values(|p: ParamModel| param_json(p)).push(param_json(pm[i as int])));
        i += 1;
    }
    assert(pm.take(params.len() as int) =~= pm);
    let mut names: Vec<String> = Vec::new();
    let mut j: usize = 0;
    while j < required.len()
        invariant
            j <= required.len(),
            rm == required@.map_values(|q: &str| q@),
            names@.map_values(|x: String| x@) == rm.take(j as int).map_values(|r: Seq<char>| quoted(r)),
        decreases required.len() - j,
    {
        let ghost before = names@.map_values(|x: String| x@);
        let t = quoted_text(required[j]);
        names.push(t);
        assert(names@.map_values(|x: String| x@) =~= before.push(quoted(rm[j as int])));
        assert(rm.take(j + 1).map_values(|r: Seq<char>| quoted(r))
            =~= rm.take(j as int).map_values(|r: Seq<char>| quoted(r)).push(quoted(rm[j as int])));
        j += 1;
    }
    assert(rm.take(required.len() as int) =~= rm);
    let mut t = "{\"properties\":{".to_owned();
    let body = join_strings(&parts, ",");
    t.append(body.as_str());
    t.append("}");
    let ghost head = t@;
    if required.len() > 0 {
        t.append(",\"required\":[");
        let list = join_strings(&names, ",");
        t.append(list.as_str());
        t.append("]");
    } else {
        assert(t@ =~= head + Seq::<char>::empty());
    }
    t.append(",\"type\":\"object\"}");
    t
}

/// Every tool, in the order offered: name, description, parameter schema.
#[verifier::opaque]
pub open spec fn tool_table() -> Seq<(Seq<char>, Seq<char>, Seq<char>)> {
    seq![
        ("navigate"@,
         "Navigates to a URL and returns the page's accessibility snapshot."@,
         tool_schema(0)),
        ("snapshot"@,
         "Returns the current page's accessibility snapshot as ref-annotated text (e.g. a button shown as `[e6]`). Actions do not auto-return a snapshot; call this again after an action that may have changed the page."@,
         tool_schema(1)),
        ("click"@,
         "Clicks the element identified by ref (e.g. \"e6\", taken from a snapshot)."@,
         tool_schema(2)),
        ("right_click"@,
         "Right-clicks (secondary-clicks) the element identified by ref, firing a native contextmenu event -- use this to open a page's own right-click / context menu."@,
         tool_schema(3)),
        ("type"@,
         "Clicks the element identified by ref to focus it, then types text. Set submit true to press Enter afterward."@,
         tool_schema(4)),
        ("press"@,
         "Presses a single named key on whatever currently has focus (e.g. \"Enter\", \"Tab\", \"Escape\")."@,
         tool_schema(5)),
        ("wait_for"@,
         "Polls the page until the given text appears (or times out), then returns the snapshot. Use this instead of guessing a fixed delay."@,
         tool_schema(6)),
        ("assert"@,
         "Immediately checks whether text is present (or absent, if present=false) in the current snapshot -- no polling, unlike wait_for. Fails as a real error if the assertion doesn't hold, which you should treat as a test failure."@,
         tool_schema(7)),
        ("screenshot"@,
         "Takes a screenshot of the current page. If you can't see images, this is interpreted by a vision model instead and you receive a text description."@,
         tool_schema(8)),
        ("list_pages"@,
         "Lists every currently attached page (tabs/popups opened as a side effect of an action) and which one is active."@,
         tool_schema(9)),
        ("switch_page"@,
         "Switches which page subsequent actions target."@,
         tool_schema(10)),
        ("run_yaml"@,
         "Runs a declarative YAML script (navigate/click/type/press/wait_for/assert steps) against the current session, stopping at the first failing step."@,
         tool_schema(11)),
        ("task_complete"@,
         "Call this when the task has been completed successfully. This ends the run -- always call it (or task_failed) rather than just stopping."@,
         tool_schema(12)),
        ("task_failed"@,
         "Call this when the task cannot be completed. This ends the run."@,
         tool_schema(13))
    ]
}

/// The text of a tool definition.
pub open spec fn def_view(d: ToolDef) -> (Seq<char>, Seq<char>, Seq<char>) {
    (d.name@, d.description@, d.parameters@)
}

fn tool(name: &str, description: &str, params: Vec<(&str, &str, Option<&str>)>, required: Vec<&str>) -> (d: ToolDef)
    ensures
        def_view(d) == (name@, description@, schema_json(
            params@.map_values(|p: (&str, &str, Option<&str>)| param_view(p)),
            required@.map_values(|q: &str| q@),
        )),
{
    let parameters = schema_text(&params, &required);
    ToolDef { name: name.to_owned(), description: description.to_owned(), parameters }
}

/// Appends the definition of the tool at `i`, built from its parts.
fn push_tool(
    r: &mut Vec<ToolDef>,
    i: usize,
    name: &str,
    description: &str,
    params: Vec<(&str, &str, Option<&str>)>,
    required: Vec<&str>,
)
    requires
        i < tool_table().len(),
        old(r)@.map_values(|d: ToolDef| def_view(d)) == tool_table().take(i as int),
        name@ == tool_table()[i as int].0,
        description@ == tool_table()[i as int].1,
        tool_table()[i as int].2 == tool_schema(i as int),
        params@.map_values(|p: (&str, &str, Option<&str>)| param_view(p)) == tool_schemas()[i as int].0,
        required@.map_values(|q: &str| q@) == tool_schemas()[i as int].1,
    ensures
        final(r)@.map_values(|d: ToolDef| def_view(d)) == tool_table().take(i + 1),
{
    let d = tool(name, description, params, required);
    assert(def_view(d) == tool_table()[i as int]);
    let ghost before = r@.map_values(|d: ToolDef| def_view(d));
    r.push(d);
    assert(r@.map_values(|d: ToolDef| def_view(d)) =~= before.push(def_view(d)));
    assert(tool_table().take(i + 1) =~= tool_table().take(i as int).push(tool_table()[i as int]));
}

/// The tool definitions sent to the driver model. `task_complete` and
/// `task_failed` end the run and are never planned as session actions.
#[verifier::spinoff_prover]
pub fn tool_defs() -> (r: Vec<ToolDef>)
    ensures
        r@.map_values(|d: ToolDef| def_view(d)) == tool_table(),
{
    let mut r: Vec<ToolDef> = Vec::new();
    proof {
        reveal(tool_table);
        reveal(tool_schemas);
    }
    assert(r@.map_values(|d: ToolDef| def_view(d)) =~= tool_table().take(0));
    let p = vec![("url", "string", None)];
    let q: Vec<&str> = vec!["url"];
    assert(p@.map_values(|p: (&str, &str, Option<&str>)| param_view(p)) =~= tool_schemas()[0].0);
    assert(q@.map_values(|q: &str| q@) =~= tool_schemas()[0].1);
    push_tool(&mut r, 0, "navigate",
        "Navigates to a URL and returns the page's accessibility snapshot.",
        p, q);
    let p = vec![];
    let q: Vec<&str> = vec![];
    assert(p@.map_values(|p: (&str, &str, Option<&str>)| param_view(p)) =~= tool_schemas()[1].0);
    assert(q@.map_values(|q: &str| q@) =~= tool_schemas()[1].1);
    push_tool(&mut r, 1, "snapshot",
        "Returns the current page's accessibility snapshot as ref-annotated text (e.g. a button shown as `[e6]`). Actions do not auto-return a snapshot; call this again after an action that may have changed the page.",
        p, q);
    let p = vec![("ref", "string", None)];
    let q: Vec<&str> = vec!["ref"];
    assert(p@.map_values(|p: (&str, &str, Option<&str>)| param_view(p)) =~= tool_schemas()[2].0);
    assert(q@.map_values(|q: &str| q@) =~= tool_schemas()[2].1);
    push_tool(&mut r, 2, "click",
        "Clicks the element identified by ref (e.g. \"e6\", taken from a snapshot).",
        p, q);
    let p = vec![("ref", "string", None)];
    let q: Vec<&str> = vec!["ref"];
    assert(p@.map_values(|p: (&str, &str, Option<&str>)| param_view(p)) =~= tool_schemas()[3].0);
    assert(q@.map_values(|q: &str| q@) =~= tool_schemas()[3].1);
    push_tool(&mut r, 3, "right_click",
        "Right-clicks (secondary-clicks) the element identified by ref, firing a native contextmenu event -- use this to open a page's own right-click / context menu.",
        p, q);
    let p = vec![("ref", "string", None), ("submit", "boolean", None), ("text", "string", None)];
    let q: Vec<&str> = vec!["ref", "text"];
    assert(p@.map_values(|p: (&str, &str, Option<&str>)| param_view(p)) =~= tool_schemas()[4].0);
    assert(q@.map_values(|q: &str| q@) =~= tool_schemas()[4].1);
    push_tool(&mut r, 4, "type",
        "Clicks the element identified by ref to focus it, then types text. Set submit true to press Enter afterward.",
        p, q);
    let p = vec![("key", "string", None)];
    let q: Vec<&str> = vec!["key"];
    assert(p@.map_values(|p: (&str, &str, Option<&str>)| param_view(p)) =~= tool_schemas()[5].0);
    assert(q@.map_values(|q: &str| q@) =~= tool_schemas()[5].1);
    push_tool(&mut r, 5, "press",
        "Presses a single named key on whatever currently has focus (e.g. \"Enter\", \"Tab\", \"Escape\").",
        p, q);
    let p = vec![("text", "string", None), ("timeout_ms", "integer", Some("Defaults to 5000."))];
    let q: Vec<&str> = vec!["text"];
    assert(p@.map_values(|p: (&str, &str, Option<&str>)| param_view(p)) =~= tool_schemas()[6].0);
    assert(q@.map_values(|q: &str| q@) =~= tool_schemas()[6].1);
    push_tool(&mut r, 6, "wait_for",
        "Polls the page until the given text appears (or times out), then returns the snapshot. Use this instead of guessing a fixed delay.",
        p, q);
    let p = vec![("present", "boolean", Some("Defaults to true.")), ("text", "string", None)];
    let q: Vec<&str> = vec!["text"];
    assert(p@.map_values(|p: (&str, &str, Option<&str>)| param_view(p)) =~= tool_schemas()[7].0);
    assert(q@.map_values(|q: &str| q@) =~= tool_schemas()[7].1);
    push_tool(&mut r, 7, "assert",
        "Immediately checks whether text is present (or absent, if present=false) in the current snapshot -- no polling, unlike wait_for. Fails as a real error if the assertion doesn't hold, which you should treat as a test failure.",
        p, q);
    let p = vec![("guidance", "string", Some("Optional: what to look for, used when the screenshot is vision-interpreted."))];
    let q: Vec<&str> = vec![];
    assert(p@.map_values(|p: (&str, &str, Option<&str>)| param_view(p)) =~= tool_schemas()[8].0);
    assert(q@.map_values(|q: &str| q@) =~= tool_schemas()[8].1);
    push_tool(&mut r, 8, "screenshot",
        "Takes a screenshot of the current page. If you can't see images, this is interpreted by a vision model instead and you receive a text description.",
        p, q);
    let p = vec![];
    let q: Vec<&str> = vec![];
    assert(p@.map_values(|p: (&str, &str, Option<&str>)| param_view(p)) =~= tool_schemas()[9].0);
    assert(q@.map_values(|q: &str| q@) =~= tool_schemas()[9].1);
    push_tool(&mut r, 9, "list_pages",
        "Lists every currently attached page (tabs/popups opened as a side effect of an action) and which one is active.",
        p, q);
    let p = vec![("page_id", "string", None)];
    let q: Vec<&str> = vec!["page_id"];
    assert(p@.map_values(|p: (&str, &str, Option<&str>)| param_view(p)) =~= tool_schemas()[10].0);
    assert(q@.map_values(|q: &str| q@) =~= tool_schemas()[10].1);
    push_tool(&mut r, 10, "switch_page",
        "Switches which page subsequent actions target.",
        p, q);
    let p = vec![("source", "string", None)];
    let q: Vec<&str> = vec!["source"];
    assert(p@.map_values(|p: (&str, &str, Option<&str>)| param_view(p)) =~= tool_schemas()[11].0);
    assert(q@.map_values(|q: &str| q@) =~= tool_schemas()[11].1);
    push_tool(&mut r, 11, "run_yaml",
        "Runs a declarative YAML script (navigate/click/type/press/wait_for/assert steps) against the current session, stopping at the first failing step.",
        p, q);
    let p = vec![("summary", "string", None)];
    let q: Vec<&str> = vec!["summary"];
    assert(p@.map_values(|p: (&str, &str, Option<&str>)| param_view(p)) =~= tool_schemas()[12].0);
    assert(q@.map_values(|q: &str| q@) =~= tool_schemas()[12].1);
    push_tool(&mut r, 12, "task_complete",
        "Call this when the task has been completed successfully. This ends the run -- always call it (or task_failed) rather than just stopping.",
        p, q);
    let p = vec![("reason", "string", None)];
    let q: Vec<&str> = vec!["reason"];
    assert(p@.map_values(|p: (&str, &str, Option<&str>)| param_view(p)) =~= tool_schemas()[13].0);
    assert(q@.map_values(|q: &str| q@) =~= tool_schemas()[13].1);
    push_tool(&mut r, 13, "task_failed",
        "Call this when the task cannot be completed. This ends the run.",
        p, q);
    assert(tool_table().take(14) =~= tool_table());
    r
}

/// What executing one tool call produced. A screenshot is handed up as
/// bytes; whether the model sees it inline or as a vision model's
/// description is decided by the harness.
pub enum ToolOutcome {
    Text(String),
    Screenshot { bytes: Vec<u8>, guidance: Option<String> },
}

/// The session action a tool call asks for.
pub enum ToolAction {
    Navigate { url: String },
    Snapshot,
    Click { ref_id: String },
    RightClick { ref_id: String },
    Type { ref_id: String, text: String, submit: bool },
    Press { key: String },
    WaitFor { text: String, timeout_ms: u64 },
    Assert { text: String, present: bool },
    Screenshot { guidance: Option<String> },
    ListPages,
    SwitchPage { page_id: String },
    RunYaml { source: String },
}

/// What to do about a tool call: answer it with this text straight away
/// (malformed arguments), or run a session action.
pub enum ToolPlan {
    Reply(String),
    Run(ToolAction),
}

/// A tool action with its strings taken as character sequences.
pub enum ActionView {
    Navigate { url: Seq<char> },
    Snapshot,
    Click { ref_id: Seq<char> },
    RightClick { ref_id: Seq<char> },
    Type { ref_id: Seq<char>, text: Seq<char>, submit: bool },
    Press { key: Seq<char> },
    WaitFor { text: Seq<char>, timeout_ms: u64 },
    Assert { text: Seq<char>, present: bool },
    Screenshot { guidance: Option<Seq<char>> },
    ListPages,
    SwitchPage { page_id: Seq<char> },
    RunYaml { source: Seq<char> },
}

impl View for ToolAction {
    type V = ActionView;

    open spec fn view(&self) -> ActionView {
        match self {
            ToolAction::Navigate { url } => ActionView::Navigate { url: url@ },
            ToolAction::Snapshot => ActionView::Snapshot,
            ToolAction::Click { ref_id } => ActionView::Click { ref_id: ref_id@ },
            ToolAction::RightClick { ref_id } => ActionView::RightClick { ref_id: ref_id@ },
            ToolAction::Type { ref_id, text, submit } => ActionView::Type { ref_id: ref_id@, text: text@, submit: *submit },
            ToolAction::Press { key } => ActionView::Press { key: key@ },
            ToolAction::WaitFor { text, timeout_ms } => ActionView::WaitFor { text: text@, timeout_ms: *timeout_ms },
            ToolAction::Assert { text, present } => ActionView::Assert { text: text@, present: *present },
            ToolAction::Screenshot { guidance } => ActionView::Screenshot { guidance: opt_chars(*guidance) },
            ToolAction::ListPages => ActionView::ListPages,
            ToolAction::SwitchPage { page_id } => ActionView::SwitchPage { page_id: page_id@ },
            ToolAction::RunYaml { source } => ActionView::RunYaml { source: source@ },
        }
    }
}

/// The outcome of planning a tool call, as character sequences.
pub enum PlanView {
    /// Answered at once with this text.
    Reply(Seq<char>),
    /// Run this action.
    Run(ActionView),
    /// The session is gone.
    NoSession,
    /// The model called a tool that is not offered.
    UnknownTool(Seq<char>),
    /// Anything else (never produced).
    Other,
}

/// A planning result, as character sequences.
pub open spec fn plan_view(r: Result<ToolPlan, AgentError>) -> PlanView {
    match r {
        Ok(ToolPlan::Reply(t)) => PlanView::Reply(t@),
        Ok(ToolPlan::Run(a)) => PlanView::Run(a@),
        Err(AgentError::NoSession) => PlanView::NoSession,
        Err(AgentError::UnknownTool(n)) => PlanView::UnknownTool(n@),
        Err(_) => PlanView::Other,
    }
}

/// The reply to a call that lacks the string argument `key`.
pub open spec fn missing_arg(key: Seq<char>) -> Seq<char> {
    "error: missing required argument \""@ + key + "\""@
}

/// The plan for a call that needs one string argument `key`.
pub open spec fn with_str_arg(raw: Seq<char>, key: Seq<char>, action: spec_fn(Seq<char>) -> ActionView) -> PlanView {
    match json_str_field(raw, key) {
        Some(v) => PlanView::Run(action(v)),
        None => PlanView::Reply(missing_arg(key)),
    }
}

/// How a tool call named `name` with argument text `raw` is handled:
/// unparsable arguments are answered with the parser's message; then a
/// missing session ends the run; then each tool's required string
/// arguments are read (a missing one is answered, not run), optional ones
/// take their defaults (`submit` false, `timeout_ms` 5000, `present`
/// true); a name that is not a session tool ends the run.
pub open spec fn spec_plan(name: Seq<char>, raw: Seq<char>, session_available: bool) -> PlanView {
    if let Some(e) = json_parse_error(raw) {
        PlanView::Reply("error: invalid arguments JSON: "@ + e)
    } else if !session_available {
        PlanView::NoSession
    } else if name == "navigate"@ {
        with_str_arg(raw, "url"@, |u: Seq<char>| ActionView::Navigate { url: u })
    } else if name == "snapshot"@ {
        PlanView::Run(ActionView::Snapshot)
    } else if name == "click"@ {
        with_str_arg(raw, "ref"@, |r: Seq<char>| ActionView::Click { ref_id: r })
    } else if name == "right_click"@ {
        with_str_arg(raw, "ref"@, |r: Seq<char>| ActionView::RightClick { ref_id: r })
    } else if name == "type"@ {
        match (json_str_field(raw, "ref"@), json_str_field(raw, "text"@)) {
            (None, _) => PlanView::Reply(missing_arg("ref"@)),
            (Some(_), None) => PlanView::Reply(missing_arg("text"@)),
            (Some(r), Some(t)) => PlanView::Run(ActionView::Type {
                ref_id: r,
                text: t,
                submit: match json_bool_field(raw, "submit"@) { Some(b) => b, None => false },
            }),
        }
    } else if name == "press"@ {
        with_str_arg(raw, "key"@, |k: Seq<char>| ActionView::Press { key: k })
    } else if name == "wait_for"@ {
        with_str_arg(raw, "text"@, |t: Seq<char>| ActionView::WaitFor {
            text: t,
            timeout_ms: match json_u64_field(raw, "timeout_ms"@) { Some(ms) => ms, None => DEFAULT_WAIT_TIMEOUT_MS },
        })
    } else if name == "assert"@ {
        with_str_arg(raw, "text"@, |t: Seq<char>| ActionView::Assert {
            text: t,
            present: match json_bool_field(raw, "present"@) { Some(b) => b, None => true },
        })
    } else if name == "screenshot"@ {
        PlanView::Run(ActionView::Screenshot { guidance: json_str_field(raw, "guidance"@) })
    } else if name == "list_pages"@ {
        PlanView::Run(ActionView::ListPages)
    } else if name == "switch_page"@ {
        with_str_arg(raw, "page_id"@, |p: Seq<char>| ActionView::SwitchPage { page_id: p })
    } else if name == "run_yaml"@ {
        with_str_arg(raw, "source"@, |s: Seq<char>| ActionView::RunYaml { source: s })
    } else {
        PlanView::UnknownTool(name)
    }
}

/// Each session tool plans its own action on its own arguments. With
/// arguments that parse, on a live session: `navigate` with a string `url`
/// plans navigating to that URL; `click` with a string `ref` plans a
/// (primary) click on that ref and `right_click` a right-click on it;
/// `press` with a string `key` plans pressing that key; `switch_page` and
/// `run_yaml` plan switching to their `page_id` and running their
/// `source`; `snapshot` and `list_pages` plan just that. And no tool
/// plans another's action: a planned click comes only from `click`, a
/// right-click only from `right_click`, and so on for every action.
pub proof fn each_tool_plans_its_own_action(name: Seq<char>, raw: Seq<char>, live: bool)
    requires
        json_parse_error(raw) is None,
    ensures
        json_str_field(raw, "url"@) matches Some(u) ==> spec_plan("navigate"@, raw, true)
            == PlanView::Run(ActionView::Navigate { url: u }),
        json_str_field(raw, "ref"@) matches Some(target) ==> spec_plan("click"@, raw, true)
            == PlanView::Run(ActionView::Click { ref_id: target }),
        json_str_field(raw, "ref"@) matches Some(target) ==> spec_plan("right_click"@, raw, true)
            == PlanView::Run(ActionView::RightClick { ref_id: target }),
        json_str_field(raw, "key"@) matches Some(k) ==> spec_plan("press"@, raw, true)
            == PlanView::Run(ActionView::Press { key: k }),
        json_str_field(raw, "page_id"@) matches Some(p) ==> spec_plan("switch_page"@, raw, true)
            == PlanView::Run(ActionView::SwitchPage { page_id: p }),
        json_str_field(raw, "source"@) matches Some(src) ==> spec_plan("run_yaml"@, raw, true)
            == PlanView::Run(ActionView::RunYaml { source: src }),
        spec_plan("snapshot"@, raw, true) == PlanView::Run(ActionView::Snapshot),
        spec_plan("list_pages"@, raw, true) == PlanView::Run(ActionView::ListPages),
        spec_plan(name, raw, live) matches PlanView::Run(ActionView::Navigate { .. }) ==> name == "navigate"@,
        spec_plan(name, raw, live) matches PlanView::Run(ActionView::Snapshot) ==> name == "snapshot"@,
        spec_plan(name, raw, live) matches PlanView::Run(ActionView::Click { .. }) ==> name == "click"@,
        spec_plan(name, raw, live) matches PlanView::Run(ActionView::RightClick { .. }) ==> name == "right_click"@,
        spec_plan(name, raw, live) matches PlanView::Run(ActionView::Type { .. }) ==> name == "type"@,
        spec_plan(name, raw, live) matches PlanView::Run(ActionView::Press { .. }) ==> name == "press"@,
        spec_plan(name, raw, live) matches PlanView::Run(ActionView::WaitFor { .. }) ==> name == "wait_for"@,
        spec_plan(name, raw, live) matches PlanView::Run(ActionView::Assert { .. }) ==> name == "assert"@,
        spec_plan(name, raw, live) matches PlanView::Run(ActionView::Screenshot { .. }) ==> name == "screenshot"@,
        spec_plan(name, raw, live) matches PlanView::Run(ActionView::ListPages) ==> name == "list_pages"@,
        spec_plan(name, raw, live) matches PlanView::Run(ActionView::SwitchPage { .. }) ==> name == "switch_page"@,
        spec_plan(name, raw, live) matches PlanView::Run(ActionView::RunYaml { .. }) ==> name == "run_yaml"@,
{
    reveal_strlit("navigate");
    reveal_strlit("snapshot");
    reveal_strlit("click");
    reveal_strlit("right_click");
    reveal_strlit("type");
    reveal_strlit("press");
    reveal_strlit("wait_for");
    reveal_strlit("assert");
    reveal_strlit("screenshot");
    reveal_strlit("list_pages");
    reveal_strlit("switch_page");
    reveal_strlit("run_yaml");
    assert("navigate"@.len() == 8 && "navigate"@[0] == 'n');
    assert("snapshot"@.len() == 8 && "snapshot"@[0] == 's');
    assert("click"@.len() == 5 && "click"@[0] == 'c');
    assert("right_click"@.len() == 11 && "right_click"@[0] == 'r');
    assert("type"@.len() == 4 && "type"@[0] == 't');
    assert("press"@.len() == 5 && "press"@[0] == 'p');
    assert("wait_for"@.len() == 8 && "wait_for"@[0] == 'w');
    assert("assert"@.len() == 6 && "assert"@[0] == 'a');
    assert("screenshot"@.len() == 10 && "screenshot"@[0] == 's');
    assert("list_pages"@.len() == 10 && "list_pages"@[0] == 'l');
    assert("switch_page"@.len() == 11 && "switch_page"@[0] == 's');
    assert("run_yaml"@.len() == 8 && "run_yaml"@[0] == 'r');
}

fn missing(key: &str) -> (r: ToolPlan)
    ensures
        plan_view(Ok(r)) == PlanView::Reply(missing_arg(key@)),
{
    let mut t = "error: missing required argument \"".to_owned();
    t.append(key);
    t.append("\"");
    ToolPlan::Reply(t)
}

/// Plans one tool call. Recoverable problems with the call itself
/// (arguments that are not JSON, a missing required argument) are answered
/// with an `error: ...` text rather than failing the run; `Err` is kept for
/// a session that is gone and a tool name that was never offered.
///
/// Called with no arguments (`{}`) on a live session, an offered tool is
/// refused as unknown exactly when it is `task_complete` or `task_failed`.
pub fn plan_tool_call(name: &str, raw_args: &str, session_available: bool) -> (r: Result<ToolPlan, AgentError>)
    ensures
        plan_view(r) == spec_plan(name@, raw_args@, session_available),
        raw_args@ == "{}"@ && session_available && offered(name@) ==> ((r matches Err(AgentError::UnknownTool(_)))
            <==> (name@ == "task_complete"@ || name@ == "task_failed"@)),
{
    if let Some(e) = parse_error(raw_args) {
        let mut t = "error: invalid arguments JSON: ".to_owned();
        t.append(e.as_str());
        return Ok(ToolPlan::Reply(t));
    }
    proof {
        if raw_args@ == "{}"@ && offered(name@) {
            let i = choose|i: int| 0 <= i < tool_table().len() && tool_table()[i].0 == name@;
            tool_schemas_are_objects_that_declare_what_they_require(i, raw_args@);
        }
    }
    if !session_available {
        return Err(AgentError::NoSession);
    }
    if str_eq(name, "navigate") {
        match str_field(raw_args, "url") {
            Some(url) => Ok(ToolPlan::Run(ToolAction::Navigate { url })),
            None => Ok(missing("url")),
        }
    } else if str_eq(name, "snapshot") {
        Ok(ToolPlan::Run(ToolAction::Snapshot))
    } else if str_eq(name, "click") {
        match str_field(raw_args, "ref") {
            Some(ref_id) => Ok(ToolPlan::Run(ToolAction::Click { ref_id })),
            None => Ok(missing("ref")),
        }
    } else if str_eq(name, "right_click") {
        match str_field(raw_args, "ref") {
            Some(ref_id) => Ok(ToolPlan::Run(ToolAction::RightClick { ref_id })),
            None => Ok(missing("ref")),
        }
    } else if str_eq(name, "type") {
        let ref_id = match str_field(raw_args, "ref") {
            Some(r) => r,
            None => return Ok(missing("ref")),
        };
        let text = match str_field(raw_args, "text") {
            Some(t) => t,
            None => return Ok(missing("text")),
        };
        let submit = match bool_field(raw_args, "submit") {
            Some(b) => b,
            None => false,
        };
        Ok(ToolPlan::Run(ToolAction::Type { ref_id, text, submit }))
    } else if str_eq(name, "press") {
        match str_field(raw_args, "key") {
            Some(key) => Ok(ToolPlan::Run(ToolAction::Press { key })),
            None => Ok(missing("key")),
        }
    } else if str_eq(name, "wait_for") {
        match str_field(raw_args, "text") {
            Some(text) => {
                let timeout_ms = match u64_field(raw_args, "timeout_ms") {
                    Some(ms) => ms,
                    None => DEFAULT_WAIT_TIMEOUT_MS,
                };
                Ok(ToolPlan::Run(ToolAction::WaitFor { text, timeout_ms }))
            },
            None => Ok(missing("text")),
        }
    } else if str_eq(name, "assert") {
        match str_field(raw_args, "text") {
            Some(text) => {
                let present = match bool_field(raw_args, "present") {
                    Some(b) => b,
                    None => true,
                };
                Ok(ToolPlan::Run(ToolAction::Assert { text, present }))
            },
            None => Ok(missing("text")),
        }
    } else if str_eq(name, "screenshot") {
        let guidance = str_field(raw_args, "guidance");
        Ok(ToolPlan::Run(ToolAction::Screenshot { guidance }))
    } else if str_eq(name, "list_pages") {
        Ok(ToolPlan::Run(ToolAction::ListPages))
    } else if str_eq(name, "switch_page") {
        match str_field(raw_args, "page_id") {
            Some(page_id) => Ok(ToolPlan::Run(ToolAction::SwitchPage { page_id })),
            None => Ok(missing("page_id")),
        }
    } else if str_eq(name, "run_yaml") {
        match str_field(raw_args, "source") {
            Some(source) => Ok(ToolPlan::Run(ToolAction::RunYaml { source })),
            None => Ok(missing("source")),
        }
    } else {
        Err(AgentError::UnknownTool(name.to_owned()))
    }
}

/// A tool outcome, as character sequences (a screenshot keeps its bytes).
pub enum OutcomeView {
    Text(Seq<char>),
    Screenshot { bytes: Seq<u8>, guidance: Option<Seq<char>> },
}

impl View for ToolOutcome {
    type V = OutcomeView;

    open spec fn view(&self) -> OutcomeView {
        match self {
            ToolOutcome::Text(t) => OutcomeView::Text(t@),
            ToolOutcome::Screenshot { bytes, guidance } => OutcomeView::Screenshot { bytes: bytes@, guidance: opt_chars(*guidance) },
        }
    }
}

/// `error: <message>`.
pub open spec fn error_text(message: Seq<char>) -> Seq<char> {
    "error: "@ + message
}

fn error_outcome(message: &str) -> (r: ToolOutcome)
    ensures
        r@ == OutcomeView::Text(error_text(message@)),
{
    let mut t = "error: ".to_owned();
    t.append(message);
    ToolOutcome::Text(t)
}

/// The result of an action that returns text (navigate, snapshot,
/// wait_for): the text, or `error: <message>`.
pub fn text_or_error(result: Result<String, String>) -> (r: ToolOutcome)
    ensures
        r@ == match result {
            Ok(t) => OutcomeView::Text(t@),
            Err(m) => OutcomeView::Text(error_text(m@)),
        },
{
    match result {
        Ok(text) => ToolOutcome::Text(text),
        Err(m) => error_outcome(m.as_str()),
    }
}

/// The result of an action on a ref (click, right_click, type): `ok`, or
/// the error with a hint that the ref may be stale.
pub fn ref_action_outcome(result: Result<(), String>) -> (r: ToolOutcome)
    ensures
        r@ == match result {
            Ok(()) => OutcomeView::Text("ok"@),
            Err(m) => OutcomeView::Text("error: "@ + m@ + ". Take a fresh snapshot if the ref may be stale."@),
        },
{
    match result {
        Ok(()) => ToolOutcome::Text("ok".to_owned()),
        Err(m) => {
            let mut t = "error: ".to_owned();
            t.append(m.as_str());
            t.append(". Take a fresh snapshot if the ref may be stale.");
            ToolOutcome::Text(t)
        },
    }
}

/// The result of press and switch_page: `ok`, or `error: <message>`.
pub fn ok_or_error(result: Result<(), String>) -> (r: ToolOutcome)
    ensures
        r@ == match result {
            Ok(()) => OutcomeView::Text("ok"@),
            Err(m) => OutcomeView::Text(error_text(m@)),
        },
{
    match result {
        Ok(()) => ToolOutcome::Text("ok".to_owned()),
        Err(m) => error_outcome(m.as_str()),
    }
}

/// The result of assert: `assertion passed`, or `assertion failed: <message>`.
pub fn assert_outcome(result: Result<(), String>) -> (r: ToolOutcome)
    ensures
        r@ == match result {
            Ok(()) => OutcomeView::Text("assertion passed"@),
            Err(m) => OutcomeView::Text("assertion failed: "@ + m@),
        },
{
    match result {
        Ok(()) => ToolOutcome::Text("assertion passed".to_owned()),
        Err(m) => {
            let mut t = "assertion failed: ".to_owned();
            t.append(m.as_str());
            ToolOutcome::Text(t)
        },
    }
}

/// The result of screenshot: the image with the call's guidance, or
/// `error: <message>`.
pub fn screenshot_outcome(result: Result<Vec<u8>, String>, guidance: Option<String>) -> (r: ToolOutcome)
    ensures
        r@ == match result {
            Ok(b) => OutcomeView::Screenshot { bytes: b@, guidance: opt_chars(guidance) },
            Err(m) => OutcomeView::Text(error_text(m@)),
        },
{
    match result {
        Ok(bytes) => ToolOutcome::Screenshot { bytes, guidance },
        Err(m) => error_outcome(m.as_str()),
    }
}

/// One `list_pages` line: `<id> <url> <title, Debug-quoted>`, then
/// ` (active)` for the active page.
pub open spec fn page_line(p: PageInfo) -> Seq<char> {
    p.page_id@ + " "@ + p.url@ + " "@ + debug_quoted(p.title@) + (if p.active { " (active)"@ } else { ""@ })
}

fn page_line_text(p: &PageInfo) -> (r: String)
    ensures
        r@ == page_line(*p),
{
    let mut t = p.page_id.clone();
    t.append(" ");
    t.append(p.url.as_str());
    t.append(" ");
    let q = debug_str(p.title.as_str());
    t.append(q.as_str());
    if p.active {
        t.append(" (active)");
    } else {
        proof {
            reveal_strlit("");
        }
        assert(t@ =~= t@ + ""@);
    }
    t
}

/// The result of list_pages: one line per page, or `no pages` when that
/// text is empty; or `error: <message>`.
pub fn list_pages_outcome(result: Result<Vec<PageInfo>, String>) -> (r: ToolOutcome)
    ensures
        r@ == match result {
            Ok(pages) => {
                let text = join_seqs(pages@.map_values(|p: PageInfo| page_line(p)), "\n"@);
                OutcomeView::Text(if text.len() == 0 { "no pages"@ } else { text })
            },
            Err(m) => OutcomeView::Text(error_text(m@)),
        },
{
    match result {
        Ok(pages) => {
            let mut lines: Vec<String> = Vec::new();
            let mut i: usize = 0;
            while i < pages.len()
                invariant
                    i <= pages.len(),
                    lines@.map_values(|x: String| x@) == pages@.take(i as int).map_values(|p: PageInfo| page_line(p)),
                decreases pages.len() - i,
            {
                let ghost before = lines@.map_values(|x: String| x@);
                let line = page_line_text(&pages[i]);
                lines.push(line);
                assert(lines@.map_values(|x: String| x@) =~= before.push(page_line(pages@[i as int])));
                assert(lines@.map_values(|x: String| x@) =~= pages@.take(i + 1).map_values(|p: PageInfo| page_line(p)));
                i += 1;
            }
            assert(pages@.take(pages.len() as int) =~= pages@);
            let text = join_strings(&lines, "\n");
            if text.as_str().is_empty() {
                ToolOutcome::Text("no pages".to_owned())
            } else {
                ToolOutcome::Text(text)
            }
        },
        Err(m) => error_outcome(m.as_str()),
    }
}

/// `RunSummary { steps_run: <n>, total_steps: <m> }`, as `{:?}` prints it.
pub open spec fn run_summary_text(s: RunSummary) -> Seq<char> {
    "RunSummary { steps_run: "@ + decimal(s.steps_run as nat) + ", total_steps: "@ + decimal(s.total_steps as nat) + " }"@
}

/// The result of run_yaml: the run summary, or `error: <message>`.
pub fn run_yaml_outcome(result: Result<RunSummary, String>) -> (r: ToolOutcome)
    ensures
        r@ == match result {
            Ok(s) => OutcomeView::Text(run_summary_text(s)),
            Err(m) => OutcomeView::Text(error_text(m@)),
        },
{
    match result {
        Ok(summary) => {
            let mut t = "RunSummary { steps_run: ".to_owned();
            let a = u64_decimal(summary.steps_run as u64);
            t.append(a.as_str());
            t.append(", total_steps: ");
            let b = u64_decimal(summary.total_steps as u64);
            t.append(b.as_str());
            t.append(" }");
            ToolOutcome::Text(t)
        },
        Err(m) => error_outcome(m.as_str()),
    }
}

} // verus!
