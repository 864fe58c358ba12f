//! Declarative script steps, and rebuilding them from the one-line action
//! summaries a trace records.

use vstd::prelude::*;
use crate::engine::error::EngineError;
use crate::text::{
    debug_quoted, debug_str, escape_all, escape_char, str_eq,
    chars_of, find, find_first, occurs_at, has_prefix, push_char, starts_with, string_of, trim_start,
    trim_start_chars,
};

verus! {

/// One scripted action.
#[derive(Debug, Clone)]
pub enum Step {
    Navigate(String),
    Click(String),
    Type { ref_id: String, text: String, submit: bool },
    Press(String),
    WaitFor { text: String, timeout_ms: Option<u64> },
    Assert { text: String, present: bool },
}

/// A step, as text.
pub enum StepView {
    Navigate(Seq<char>),
    Click(Seq<char>),
    Type { ref_id: Seq<char>, text: Seq<char>, submit: bool },
    Press(Seq<char>),
    WaitFor { text: Seq<char>, timeout_ms: Option<u64> },
    Assert { text: Seq<char>, present: bool },
}

impl View for Step {
    type V = StepView;

    open spec fn view(&self) -> StepView {
        match self {
            Step::Navigate(u) => StepView::Navigate(u@),
            Step::Click(r) => StepView::Click(r@),
            Step::Type { ref_id, text, submit } => StepView::Type { ref_id: ref_id@, text: text@, submit: *submit },
            Step::Press(k) => StepView::Press(k@),
            Step::WaitFor { text, timeout_ms } => StepView::WaitFor { text: text@, timeout_ms: *timeout_ms },
            Step::Assert { text, present } => StepView::Assert { text: text@, present: *present },
        }
    }
}

/// What `run` reports after every step succeeded.
pub struct RunSummary {
    pub steps_run: usize,
    pub total_steps: usize,
}

/// A recorded trace entry, without its timestamp.
pub enum TraceItem {
    Console { level: String, text: String },
    Exception { text: String },
    Action { text: String },
    Screenshot { path: String },
}

/// The default of an assertion's `present` field.
pub fn default_true() -> (r: bool)
    ensures
        r,
{
    true
}

/// The name under which a step is written in a script.
pub open spec fn spec_step_kind(step: Step) -> Seq<char> {
    match step {
        Step::Navigate(_) => "navigate"@,
        Step::Click(_) => "click"@,
        Step::Type { .. } => "type"@,
        Step::Press(_) => "press"@,
        Step::WaitFor { .. } => "wait_for"@,
        Step::Assert { .. } => "assert"@,
    }
}

/// The name under which `step` is written in a script.
pub fn step_kind(step: &Step) -> (r: &'static str)
    ensures
        r@ == spec_step_kind(*step),
{
    match step {
        Step::Navigate(_) => "navigate",
        Step::Click(_) => "click",
        Step::Type { .. } => "type",
        Step::Press(_) => "press",
        Step::WaitFor { .. } => "wait_for",
        Step::Assert { .. } => "assert",
    }
}

/// How long a `wait_for` step polls when it names no `timeout_ms`.
pub const DEFAULT_WAIT_FOR_MS: u64 = 5000;

/// How long a `wait_for` step polls.
pub fn wait_timeout_ms(timeout_ms: Option<u64>) -> (r: u64)
    ensures
        r == match timeout_ms { Some(ms) => ms, None => DEFAULT_WAIT_FOR_MS },
{
    match timeout_ms {
        Some(ms) => ms,
        None => DEFAULT_WAIT_FOR_MS,
    }
}

/// The kinds of step a script can hold.
pub enum StepKind {
    Navigate,
    Click,
    Type,
    Press,
    WaitFor,
    Assert,
}

/// The kind a script step's key names.
pub open spec fn spec_step_key(key: Seq<char>) -> Option<StepKind> {
    if key == "navigate"@ {
        Some(StepKind::Navigate)
    } else if key == "click"@ {
        Some(StepKind::Click)
    } else if key == "type"@ {
        Some(StepKind::Type)
    } else if key == "press"@ {
        Some(StepKind::Press)
    } else if key == "wait_for"@ {
        Some(StepKind::WaitFor)
    } else if key == "assert"@ {
        Some(StepKind::Assert)
    } else {
        None
    }
}

/// The message for a step that is not a single-key map.
pub const ONE_KEY_MESSAGE: &'static str = "each step must have exactly one key (e.g. `navigate: \"...\"` or `click: e6`)";

/// Reads a script step written as a map with `entry_count` keys, the only
/// one being `key`: it must have exactly one key, naming one of the six
/// step kinds; otherwise the message explains what is wrong.
pub fn step_key_kind(entry_count: usize, key: &str) -> (r: Result<StepKind, String>)
    ensures
        entry_count != 1 ==> (r matches Err(m) && m@ == ONE_KEY_MESSAGE@),
        entry_count == 1 ==> match spec_step_key(key@) {
            Some(k) => r == Ok::<StepKind, String>(k),
            None => r matches Err(m) && m@ == "unknown step kind "@ + debug_quoted(key@)
                + " (expected one of: navigate, click, type, press, wait_for, assert)"@,
        },
{
    if entry_count != 1 {
        return Err(ONE_KEY_MESSAGE.to_owned());
    }
    if str_eq(key, "navigate") {
        Ok(StepKind::Navigate)
    } else if str_eq(key, "click") {
        Ok(StepKind::Click)
    } else if str_eq(key, "type") {
        Ok(StepKind::Type)
    } else if str_eq(key, "press") {
        Ok(StepKind::Press)
    } else if str_eq(key, "wait_for") {
        Ok(StepKind::WaitFor)
    } else if str_eq(key, "assert") {
        Ok(StepKind::Assert)
    } else {
        let mut m = "unknown step kind ".to_owned();
        let q = debug_str(key);
        m.append(q.as_str());
        m.append(" (expected one of: navigate, click, type, press, wait_for, assert)");
        Err(m)
    }
}

/// A script that does not parse as YAML.
pub fn unparsable_script(detail: &str) -> (r: EngineError)
    ensures
        r matches EngineError::YamlRunner(m) && m@ == "failed to parse YAML script: "@ + detail@,
{
    let mut m = "failed to parse YAML script: ".to_owned();
    m.append(detail);
    EngineError::YamlRunner(m)
}

/// The error that stops a run at the step at `index` (0-based) of `total`:
/// its 1-based number, the total, its kind and why it failed.
pub fn step_failed(index: usize, total: usize, step: &Step, message: String) -> (r: EngineError)
    requires
        index < total,
    ensures
        r matches EngineError::YamlStepFailed { step_number, total_steps, step_kind: k, message: m }
            && step_number == index + 1 && total_steps == total && k@ == spec_step_kind(*step) && m@ == message@,
{
    EngineError::YamlStepFailed { step_number: index + 1, total_steps: total, step_kind: step_kind(step).to_owned(), message }
}

/// What a run whose `total` steps all succeeded reports.
pub fn completed_run(total: usize) -> (r: RunSummary)
    ensures
        r.steps_run == total,
        r.total_steps == total,
{
    RunSummary { steps_run: total, total_steps: total }
}

/// What a script run does next.
pub enum RunNext {
    /// Run the step at this index.
    Step(usize),
    /// Every step succeeded: the run's summary.
    Done(RunSummary),
    /// A step failed: the run stops with this error.
    Stop(EngineError),
}

/// How a run of `total` steps begins: with the first step, or, for an
/// empty script, finished at once.
pub fn start_run(total: usize) -> (r: RunNext)
    ensures
        total > 0 ==> (r matches RunNext::Step(i) && i == 0),
        total == 0 ==> (r matches RunNext::Done(s) && s.steps_run == 0 && s.total_steps == 0),
{
    if total == 0 {
        RunNext::Done(completed_run(0))
    } else {
        RunNext::Step(0)
    }
}

/// What follows the step at `index` of `total`, given how it went: the
/// next step; or, after the last, the completed run; or, on its failure,
/// a stop at once (no later step runs) with that step's number, kind and
/// message.
pub fn after_step(index: usize, total: usize, step: &Step, outcome: Result<(), String>) -> (r: RunNext)
    requires
        index < total,
    ensures
        outcome is Ok && index + 1 < total ==> (r matches RunNext::Step(i) && i == index + 1),
        outcome is Ok && index + 1 == total ==> (r matches RunNext::Done(s) && s.steps_run == total && s.total_steps == total),
        outcome matches Err(m) ==> (r matches RunNext::Stop(EngineError::YamlStepFailed { step_number, total_steps, step_kind: k, message })
            && step_number == index + 1 && total_steps == total && k@ == spec_step_kind(*step) && message@ == m@),
{
    match outcome {
        Err(m) => RunNext::Stop(step_failed(index, total, step, m)),
        Ok(()) => {
            if index + 1 < total {
                RunNext::Step(index + 1)
            } else {
                RunNext::Done(completed_run(total))
            }
        },
    }
}

/// What an escaped `c` stands for.
pub open spec fn escape_value(c: char) -> Seq<char> {
    if c == '"' {
        seq!['"']
    } else if c == '\\' {
        seq!['\\']
    } else if c == 'n' {
        seq!['\n']
    } else if c == 't' {
        seq!['\t']
    } else if c == 'r' {
        seq!['\r']
    } else {
        seq![c]
    }
}

/// Prepends `p` to the content of a scan result.
pub open spec fn prepend(p: Seq<char>, r: Option<(Seq<char>, Seq<char>)>) -> Option<(Seq<char>, Seq<char>)> {
    match r {
        Some((out, rest)) => Some((p + out, rest)),
        None => None,
    }
}

/// Scans quoted content up to the closing quote: the unescaped content and
/// what follows the quote, or `None` when the quote never closes.
pub open spec fn scan_quoted(s: Seq<char>, escaped: bool) -> Option<(Seq<char>, Seq<char>)>
    decreases s.len(),
{
    if s.len() == 0 {
        None
    } else {
        let c = s[0];
        let t = s.drop_first();
        if escaped {
            prepend(escape_value(c), scan_quoted(t, false))
        } else if c == '\\' {
            scan_quoted(t, true)
        } else if c == '"' {
            Some((Seq::empty(), t))
        } else {
            prepend(seq![c], scan_quoted(t, false))
        }
    }
}

/// A leading quoted string of `s`, unescaped, with what follows it.
pub open spec fn spec_take_quoted(s: Seq<char>) -> Option<(Seq<char>, Seq<char>)> {
    if s.len() > 0 && s[0] == '"' {
        scan_quoted(s.drop_first(), false)
    } else {
        None
    }
}

proof fn lemma_scan_step(s: Seq<char>, i: int, escaped: bool)
    requires
        0 <= i < s.len(),
    ensures
        scan_quoted(s.skip(i), escaped) == ({
            let c = s[i];
            let t = s.skip(i + 1);
            if escaped {
                prepend(escape_value(c), scan_quoted(t, false))
            } else if c == '\\' {
                scan_quoted(t, true)
            } else if c == '"' {
                Some((Seq::empty(), t))
            } else {
                prepend(seq![c], scan_quoted(t, false))
            }
        }),
{
    assert(s.skip(i).drop_first() =~= s.skip(i + 1));
    assert(s.skip(i)[0] == s[i]);
}

proof fn lemma_prepend_assoc(a: Seq<char>, b: Seq<char>, r: Option<(Seq<char>, Seq<char>)>)
    ensures
        prepend(a, prepend(b, r)) == prepend(a + b, r),
{
    match r {
        Some((o, rest)) => {
            assert(a + (b + o) =~= (a + b) + o);
        },
        None => {},
    }
}

/// Strips a leading quoted string (with `\"`, `\\`, `\n`, `\t`, `\r`
/// escapes; any other character stands for itself) from the front of
/// `s`, returning its unescaped content and what follows the closing
/// quote.
pub fn take_debug_quoted(s: &str) -> (r: Option<(String, String)>)
    ensures
        match (r, spec_take_quoted(s@)) {
            (Some((out, rest)), Some((o, t))) => out@ == o && rest@ == t,
            (None, None) => true,
            _ => false,
        },
{
    let v = chars_of(s);
    if v.len() == 0 || v[0] != '"' {
        return None;
    }
    let mut out = String::new();
    let mut escaped = false;
    let mut i: usize = 1;
    assert(v@.skip(1) =~= v@.drop_first());
    while i < v.len()
        invariant
            1 <= i <= v.len(),
            v@ == s@,
            v@[0] == '"',
            spec_take_quoted(s@) == prepend(out@, scan_quoted(v@.skip(i as int), escaped)),
        decreases v.len() - i,
    {
        let c = v[i];
        proof {
            lemma_scan_step(v@, i as int, escaped);
        }
        if escaped {
            let ghost before = out@;
            if c == '"' {
                push_char(&mut out, '"');
            } else if c == '\\' {
                push_char(&mut out, '\\');
            } else if c == 'n' {
                push_char(&mut out, '\n');
            } else if c == 't' {
                push_char(&mut out, '\t');
            } else if c == 'r' {
                push_char(&mut out, '\r');
            } else {
                push_char(&mut out, c);
            }
            proof {
                assert(out@ =~= before + escape_value(c));
                lemma_prepend_assoc(before, escape_value(c), scan_quoted(v@.skip(i + 1), false));
            }
            escaped = false;
        } else if c == '\\' {
            escaped = true;
        } else if c == '"' {
            let rest = string_of(&v, i + 1, v.len());
            assert(v@.skip(i + 1) =~= v@.subrange(i + 1, v@.len() as int));
            assert(out@ + Seq::<char>::empty() =~= out@);
            return Some((out, rest));
        } else {
            let ghost before = out@;
            push_char(&mut out, c);
            proof {
                assert(out@ =~= before + seq![c]);
                lemma_prepend_assoc(before, seq![c], scan_quoted(v@.skip(i + 1), false));
            }
        }
        i += 1;
    }
    assert(v@.skip(i as int).len() == 0);
    None
}

/// The `type` step that `<ref> "<text>"` stands for.
pub open spec fn parse_type_action(rest: Seq<char>) -> Option<StepView> {
    match find_first(rest, seq![' ']) {
        Some(k) => match spec_take_quoted(rest.skip(k + 1)) {
            Some((text, _)) => Some(StepView::Type { ref_id: rest.take(k), text, submit: false }),
            None => None,
        },
        None => None,
    }
}

/// The `assert` step that `"<text>" present=<bool> ...` stands for.
pub open spec fn parse_assert_action(rest: Seq<char>) -> Option<StepView> {
    match spec_take_quoted(rest) {
        Some((text, rem)) => {
            let tr = trim_start(rem);
            if has_prefix(tr, "present="@) {
                Some(StepView::Assert { text, present: has_prefix(tr.skip("present="@.len() as int), "true"@) })
            } else {
                None
            }
        },
        None => None,
    }
}

/// The step an action summary line stands for: `navigate <url>`,
/// `click <ref>`, `type <ref> "<text>"`, `press <key>`, or
/// `assert text="<text>" present=<bool> => ...`.
pub open spec fn parse_action(t: Seq<char>) -> Option<StepView> {
    if has_prefix(t, "navigate "@) {
        Some(StepView::Navigate(t.skip("navigate "@.len() as int)))
    } else if has_prefix(t, "click "@) {
        Some(StepView::Click(t.skip("click "@.len() as int)))
    } else if has_prefix(t, "type "@) {
        parse_type_action(t.skip("type "@.len() as int))
    } else if has_prefix(t, "press "@) {
        Some(StepView::Press(t.skip("press "@.len() as int)))
    } else if has_prefix(t, "assert text="@) {
        parse_assert_action(t.skip("assert text="@.len() as int))
    } else {
        None
    }
}

/// Whether an optional step matches an optional step view.
pub open spec fn step_matches(r: Option<Step>, v: Option<StepView>) -> bool {
    match (r, v) {
        (Some(step), Some(sv)) => step@ == sv,
        (None, None) => true,
        _ => false,
    }
}

/// The text of `v` after its first `n` characters.
fn tail_string(v: &Vec<char>, n: usize) -> (r: String)
    requires
        n <= v.len(),
    ensures
        r@ == v@.skip(n as int),
{
    let r = string_of(v, n, v.len());
    assert(v@.subrange(n as int, v@.len() as int) =~= v@.skip(n as int));
    r
}

#[verifier::rlimit(40)]
fn type_step(rv: &Vec<char>) -> (r: Option<Step>)
    ensures
        step_matches(r, parse_type_action(rv@)),
{
    let mut space: Vec<char> = Vec::new();
    space.push(' ');
    assert(space@ =~= seq![' ']);
    match find(rv, &space) {
        None => None,
        Some(k) => {
            assert(occurs_at(rv@, space@, k as int));
            assert(space@.len() == 1);
            let n = rv.len();
            assert(k + 1 <= n);
            let ref_id = string_of(rv, 0, k);
            assert(rv@.subrange(0, k as int) =~= rv@.take(k as int));
            let after = tail_string(rv, k + 1);
            match take_debug_quoted(after.as_str()) {
                Some((quoted, _)) => Some(Step::Type { ref_id, text: quoted, submit: false }),
                None => None,
            }
        },
    }
}

fn assert_step(rest: &str) -> (r: Option<Step>)
    ensures
        step_matches(r, parse_assert_action(rest@)),
{
    match take_debug_quoted(rest) {
        None => None,
        Some((quoted, remainder)) => {
            let rem = chars_of(remainder.as_str());
            let tr = trim_start_chars(&rem);
            let present_kw = chars_of("present=");
            if !starts_with(&tr, &present_kw) {
                return None;
            }
            let after = tail_string(&tr, present_kw.len());
            let av = chars_of(after.as_str());
            let true_kw = chars_of("true");
            let present = starts_with(&av, &true_kw);
            Some(Step::Assert { text: quoted, present })
        },
    }
}

/// Rebuilds a step from one action summary line of a trace.
pub fn action_to_step(text: &str) -> (r: Option<Step>)
    ensures
        step_matches(r, parse_action(text@)),
{
    let t = chars_of(text);
    let navigate = chars_of("navigate ");
    if starts_with(&t, &navigate) {
        return Some(Step::Navigate(tail_string(&t, navigate.len())));
    }
    let click = chars_of("click ");
    if starts_with(&t, &click) {
        return Some(Step::Click(tail_string(&t, click.len())));
    }
    let type_kw = chars_of("type ");
    if starts_with(&t, &type_kw) {
        let rest = tail_string(&t, type_kw.len());
        let rv = chars_of(rest.as_str());
        return type_step(&rv);
    }
    let press = chars_of("press ");
    if starts_with(&t, &press) {
        return Some(Step::Press(tail_string(&t, press.len())));
    }
    let assert_kw = chars_of("assert text=");
    if starts_with(&t, &assert_kw) {
        let rest = tail_string(&t, assert_kw.len());
        return assert_step(rest.as_str());
    }
    None
}

/// The steps one trace entry contributes: its parsed action, if any.
pub open spec fn entry_steps(e: TraceItem) -> Seq<StepView> {
    match e {
        TraceItem::Action { text } => match parse_action(text@) {
            Some(s) => seq![s],
            None => Seq::empty(),
        },
        _ => Seq::empty(),
    }
}

/// The runnable steps of a trace: one per action entry that parses, in
/// order; console, exception and screenshot entries are skipped.
pub open spec fn trace_steps(entries: Seq<TraceItem>) -> Seq<StepView>
    decreases entries.len(),
{
    if entries.len() == 0 {
        Seq::empty()
    } else {
        trace_steps(entries.drop_last()) + entry_steps(entries.last())
    }
}

/// A trace exports as exactly the steps its action summaries stand for, in
/// order: an empty trace has none; appending an action entry whose summary
/// parses as a step appends that very step; appending one that does not
/// parse, or a console, exception or screenshot entry, adds nothing; and
/// the steps of two traces one after the other are the steps of the first
/// followed by those of the second.
pub proof fn export_keeps_every_parsed_action_in_order(entries: Seq<TraceItem>, more: Seq<TraceItem>, e: TraceItem)
    ensures
        trace_steps(Seq::empty()) == Seq::<StepView>::empty(),
        e matches TraceItem::Action { text } ==> trace_steps(entries.push(e)) == match parse_action(text@) {
            Some(step) => trace_steps(entries).push(step),
            None => trace_steps(entries),
        },
        !(e is Action) ==> trace_steps(entries.push(e)) == trace_steps(entries),
        trace_steps(entries + more) == trace_steps(entries) + trace_steps(more),
    decreases more.len(),
{
    assert(entries.push(e).drop_last() =~= entries);
    if let TraceItem::Action { text } = e {
        match parse_action(text@) {
            Some(step) => {
                assert(trace_steps(entries).push(step) =~= trace_steps(entries) + seq![step]);
            },
            None => {
                assert(trace_steps(entries) + Seq::<StepView>::empty() =~= trace_steps(entries));
            },
        }
    } else {
        assert(trace_steps(entries) + Seq::<StepView>::empty() =~= trace_steps(entries));
    }
    if more.len() == 0 {
        assert(entries + more =~= entries);
        assert(trace_steps(entries) + Seq::<StepView>::empty() =~= trace_steps(entries));
    } else {
        let front = more.drop_last();
        export_keeps_every_parsed_action_in_order(entries, front, e);
        assert((entries + more).drop_last() =~= entries + front);
        assert((entries + more).last() == more.last());
        assert(trace_steps(entries) + trace_steps(front) + entry_steps(more.last())
            =~= trace_steps(entries) + (trace_steps(front) + entry_steps(more.last())));
    }
}

/// The steps a trace's action entries stand for, ready to be written out
/// as a script.
pub fn export_steps(entries: &Vec<TraceItem>) -> (r: Vec<Step>)
    ensures
        r@.map_values(|s: Step| s@) == trace_steps(entries@),
{
    let mut r: Vec<Step> = Vec::new();
    let mut i: usize = 0;
    assert(entries@.take(0) =~= Seq::<TraceItem>::empty());
    while i < entries.len()
        invariant
            i <= entries.len(),
            r@.map_values(|s: Step| s@) == trace_steps(entries@.take(i as int)),
        decreases entries.len() - i,
    {
        assert(entries@.take(i + 1).drop_last() =~= entries@.take(i as int));
        assert(entries@.take(i + 1).last() == entries@[i as int]);
        let ghost before = r@;
        match &entries[i] {
            TraceItem::Action { text } => {
                match action_to_step(text.as_str()) {
                    Some(step) => {
                        r.push(step);
                    },
                    None => {},
                }
            },
            _ => {},
        }
        assert(r@.map_values(|s: Step| s@) =~= before.map_values(|s: Step| s@) + entry_steps(entries@[i as int]));
        i += 1;
    }
    assert(entries@.take(entries@.len() as int) =~= entries@);
    r
}

proof fn lemma_scan_escaped(s: Seq<char>, rest: Seq<char>)
    ensures
        scan_quoted(escape_all(s) + seq!['"'] + rest, false) == Some((s, rest)),
    decreases s.len(),
{
    let input = escape_all(s) + seq!['"'] + rest;
    if s.len() == 0 {
        assert(input =~= seq!['"'] + rest);
        assert(input.drop_first() =~= rest);
    } else {
        let c = s[0];
        let t = s.drop_first();
        lemma_scan_escaped(t, rest);
        let tail = escape_all(t) + seq!['"'] + rest;
        if c == '"' || c == '\\' || c == '\n' || c == '\t' || c == '\r' {
            let x = escape_char(c)[1];
            assert(input =~= seq!['\\', x] + tail);
            assert(input.drop_first() =~= seq![x] + tail);
            assert((seq![x] + tail).drop_first() =~= tail);
            assert(escape_value(x) =~= seq![c]);
            assert(input[0] == '\\');
            assert(input.drop_first()[0] == x);
            assert(scan_quoted(input.drop_first(), true) == prepend(seq![c], scan_quoted(tail, false)));
            assert(scan_quoted(input, false) == scan_quoted(input.drop_first(), true));
        } else {
            assert(input =~= seq![c] + tail);
            assert(input.drop_first() =~= tail);
            assert(input[0] == c);
            assert(scan_quoted(input, false) == prepend(seq![c], scan_quoted(tail, false)));
        }
        assert(seq![c] + t =~= s);
    }
}

/// Reading a quoted string back gives what was quoted: for any text `s`,
/// scanning `"` + the escaped `s` + `"` followed by `rest` yields `s`
/// and leaves `rest`.
pub proof fn take_quoted_inverts_quoting(s: Seq<char>, rest: Seq<char>)
    ensures
        spec_take_quoted(seq!['"'] + escape_all(s) + seq!['"'] + rest) == Some((s, rest)),
{
    let input = seq!['"'] + escape_all(s) + seq!['"'] + rest;
    assert(input.drop_first() =~= escape_all(s) + seq!['"'] + rest);
    lemma_scan_escaped(s, rest);
}

/// An exported trace replays what was done: the summary a navigate, click
/// or press logs reads back as that very step, and so does a type
/// summary whose ref has no space and whose text, any text, is quoted with
/// `escape_all`.
pub proof fn summaries_read_back_as_steps(arg: Seq<char>, ref_id: Seq<char>, text: Seq<char>)
    ensures
        parse_action("navigate "@ + arg) == Some(StepView::Navigate(arg)),
        parse_action("click "@ + arg) == Some(StepView::Click(arg)),
        parse_action("press "@ + arg) == Some(StepView::Press(arg)),
        !ref_id.contains(' ') ==> parse_action(
            "type "@ + ref_id + " "@ + (seq!['"'] + escape_all(text) + seq!['"'])) == Some(
            StepView::Type { ref_id, text, submit: false }),
{
    reveal_strlit("navigate ");
    reveal_strlit("click ");
    reveal_strlit("type ");
    reveal_strlit("press ");
    reveal_strlit("assert text=");
    reveal_strlit(" ");
    let n = "navigate "@ + arg;
    assert(n.take(9) =~= "navigate "@);
    assert(n.skip(9) =~= arg);
    let c = "click "@ + arg;
    assert(c.take(6) =~= "click "@);
    assert(c.skip(6) =~= arg);
    assert(c[0] != "navigate "@[0]);
    let p = "press "@ + arg;
    assert(p.take(6) =~= "press "@);
    assert(p.skip(6) =~= arg);
    assert(p[0] != "navigate "@[0] && p[0] != "click "@[0] && p[1] != "type "@[1]);
    if !ref_id.contains(' ') {
        let quoted = seq!['"'] + escape_all(text) + seq!['"'];
        let t = "type "@ + ref_id + " "@ + quoted;
        assert(t.take(5) =~= "type "@);
        assert(t[0] != "navigate "@[0] && t[0] != "click "@[0]);
        let rest = t.skip(5);
        assert(rest =~= ref_id + seq![' '] + quoted);
        let k = ref_id.len() as int;
        assert(occurs_at(rest, seq![' '], k)) by {
            assert(rest.subrange(k, k + 1) =~= seq![' ']);
        }
        assert forall|j: int| 0 <= j < k implies !occurs_at(rest, seq![' '], j) by {
            if occurs_at(rest, seq![' '], j) {
                assert(rest.subrange(j, j + 1)[0] == ' ');
                assert(ref_id[j] == ' ');
                assert(ref_id.contains(' '));
            }
        }
        reveal(find_first);
        let w = choose|w: int| occurs_at(rest, seq![' '], w) && forall|j: int| 0 <= j < w ==> !occurs_at(rest, seq![' '], j);
        assert(w == k) by {
            if w < k {
                assert(!occurs_at(rest, seq![' '], w));
            } else if w > k {
                assert(!occurs_at(rest, seq![' '], k));
            }
        }
        assert(rest.take(k) =~= ref_id);
        assert(rest.skip(k + 1) =~= quoted + Seq::<char>::empty());
        take_quoted_inverts_quoting(text, Seq::<char>::empty());
    }
}

/// An exported trace replays an assertion: the summary an assertion logs,
/// its text (any text) quoted with `escape_all`, reads back as that assertion
/// step, whatever outcome the summary ends with.
pub proof fn assert_summaries_read_back(text: Seq<char>, present: bool, outcome: Seq<char>)
    ensures
        parse_action("assert text="@ + (seq!['"'] + escape_all(text) + seq!['"']) + " present="@
            + (if present { "true"@ } else { "false"@ }) + " => "@ + outcome) == Some(
            StepView::Assert { text, present }),
{
    reveal_strlit("navigate ");
    reveal_strlit("click ");
    reveal_strlit("type ");
    reveal_strlit("press ");
    reveal_strlit("assert text=");
    reveal_strlit(" present=");
    reveal_strlit("present=");
    reveal_strlit("true");
    reveal_strlit("false");
    reveal_strlit(" => ");
    let quoted = seq!['"'] + escape_all(text) + seq!['"'];
    let b = if present { "true"@ } else { "false"@ };
    let tail = b + " => "@ + outcome;
    let rem = " present="@ + tail;
    let t = "assert text="@ + quoted + " present="@ + b + " => "@ + outcome;
    assert(t =~= "assert text="@ + (quoted + rem));
    assert(t.take(12) =~= "assert text="@);
    assert(t.skip(12) =~= quoted + rem);
    assert(t[0] != "navigate "@[0] && t[0] != "click "@[0] && t[0] != "type "@[0] && t[0] != "press "@[0]);
    take_quoted_inverts_quoting(text, rem);
    let tr = "present="@ + tail;
    assert(rem.drop_first() =~= tr);
    assert(trim_start(tr) == tr) by {
        assert(tr[0] == 'p');
    }
    assert(trim_start(rem) == tr) by {
        assert(rem[0] == ' ');
    }
    assert(tr.take(8) =~= "present="@);
    assert(tr.skip(8) =~= tail);
    if present {
        assert(tail.take(4) =~= "true"@);
    } else {
        assert(tail[0] == 'f');
        assert(tail.take(4)[0] == 'f');
    }
}

} // verus!
