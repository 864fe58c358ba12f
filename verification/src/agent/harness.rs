//! The decisions of the agent's step loop: when a run must stop, how a
//! model turn without tool calls is nudged, which tool calls end the task,
//! which old snapshots are elided from the conversation, and how a
//! screenshot reaches a driver with or without vision. The caller talks to
//! the model and the browser and hands each outcome back here.

use vstd::prelude::*;
use crate::agent::error::AgentError;
use crate::agent::types::{AgentEvent, TaskOutcome};
use crate::codec::{base64_encode, base64_standard};
use crate::json::{json_str_field, opt_chars, str_field};
use crate::text::{chars_of, decimal, has_prefix, starts_with, str_eq, string_of, u64_decimal};

verus! {

/// Two consecutive turns with no tool call and no termination call end the
/// run as stuck; one nudge gets its chance first.
pub const MAX_CONSECUTIVE_NUDGES: u32 = 2;

/// What the model is told after a turn with no tool call.
pub const NUDGE_TEXT: &'static str = "Respond with a tool call, or call task_complete/task_failed to end the task.";

/// What an elided snapshot result is rewritten to.
pub const ELIDED_SNAPSHOT_TEXT: &'static str = "[snapshot elided -- call snapshot() again if needed]";

/// The tool result recorded for a screenshot shown inline.
pub const SCREENSHOT_FOLLOWS_TEXT: &'static str = "screenshot follows";

/// The text of the user message that carries an inline screenshot.
pub const SCREENSHOT_CAPTION: &'static str = "Screenshot:";

/// The tool result when neither the driver nor a vision role can see.
pub const NO_VISION_TEXT: &'static str = "error: no vision role configured for this driver, which has no vision of its own. Rely on snapshot() instead, or ask the user to add [roles.vision] to their config.";

/// `s` cut to `max` characters, followed by the full length, when longer.
pub open spec fn spec_truncate(s: Seq<char>, max: nat) -> Seq<char> {
    if s.len() <= max {
        s
    } else {
        s.take(max as int) + "... ("@ + decimal(s.len()) + " chars total)"@
    }
}

/// Truncates on a character boundary (never inside a multi-byte
/// character) for progress-log summaries.
pub fn truncate_chars(s: &str, max_chars: usize) -> (r: String)
    ensures
        r@ == spec_truncate(s@, max_chars as nat),
{
    let v = chars_of(s);
    if v.len() <= max_chars {
        return s.to_owned();
    }
    let mut r = string_of(&v, 0, max_chars);
    r.append("... (");
    let n = u64_decimal(v.len() as u64);
    r.append(n.as_str());
    r.append(" chars total)");
    assert(v@.subrange(0, max_chars as int) =~= s@.take(max_chars as int));
    r
}

/// The string field `field` of a tool call's JSON arguments, if the text
/// parses and the field holds a string.
pub fn extract_field(raw_args: &str, field: &str) -> (r: Option<String>)
    ensures
        opt_chars(r) == json_str_field(raw_args@, field@),
{
    str_field(raw_args, field)
}

/// The snapshot results to elide: all but the most recent `keep` of them.
pub open spec fn spec_elided(snapshot_indices: Seq<usize>, keep: nat) -> Seq<usize> {
    if snapshot_indices.len() <= keep {
        Seq::empty()
    } else {
        snapshot_indices.take(snapshot_indices.len() - keep)
    }
}

/// Which of the recorded snapshot results (message indices, oldest first)
/// are rewritten to `ELIDED_SNAPSHOT_TEXT` before the next model call.
pub fn snapshots_to_elide(snapshot_indices: &Vec<usize>, keep: u32) -> (r: Vec<usize>)
    ensures
        r@ == spec_elided(snapshot_indices@, keep as nat),
{
    let keep = keep as usize;
    let mut r: Vec<usize> = Vec::new();
    if snapshot_indices.len() <= keep {
        return r;
    }
    let elide_count = snapshot_indices.len() - keep;
    let mut i: usize = 0;
    while i < elide_count
        invariant
            elide_count <= snapshot_indices.len(),
            i <= elide_count,
            r@ == snapshot_indices@.take(i as int),
        decreases elide_count - i,
    {
        r.push(snapshot_indices[i]);
        assert(r@ =~= snapshot_indices@.take(i + 1));
        i += 1;
    }
    r
}

/// Pruning keeps the most recent `keep` snapshot results and elides every
/// older one.
pub proof fn pruning_keeps_exactly_the_most_recent(snapshot_indices: Seq<usize>, keep: nat)
    ensures
        spec_elided(snapshot_indices, keep).len() + (if snapshot_indices.len() <= keep { snapshot_indices.len() } else { keep })
            == snapshot_indices.len(),
        forall|i: int| 0 <= i < snapshot_indices.len() ==>
            (spec_elided(snapshot_indices, keep).contains(#[trigger] snapshot_indices[i])
                <== i < snapshot_indices.len() - keep),
        forall|i: int| 0 <= i < spec_elided(snapshot_indices, keep).len() ==>
            #[trigger] spec_elided(snapshot_indices, keep)[i] == snapshot_indices[i] && i < snapshot_indices.len() - keep,
{
    let e = spec_elided(snapshot_indices, keep);
    assert forall|i: int| 0 <= i < snapshot_indices.len() && i < snapshot_indices.len() - keep
        implies e.contains(#[trigger] snapshot_indices[i]) by {
        assert(e[i] == snapshot_indices[i]);
    }
}

/// Whether a tool's text result reads as a success.
pub open spec fn result_ok(text: Seq<char>) -> bool {
    !has_prefix(text, "error:"@) && !has_prefix(text, "assertion failed"@)
}

/// Whether a tool's result is a full page snapshot.
pub open spec fn snapshot_like(name: Seq<char>) -> bool {
    name == "navigate"@ || name == "snapshot"@ || name == "wait_for"@
}

/// Every tool whose text result is a whole page snapshot (`navigate`,
/// `snapshot`, `wait_for`) has its result remembered for pruning. So
/// snapshot results of any of these tools, recorded at message indices `i`
/// then `j` after the remembered list `s`, leave the older one (`i`) to be
/// elided when only the latest is kept.
pub proof fn page_snapshots_of_every_kind_are_pruned(a: Seq<char>, b: Seq<char>, s: Seq<usize>, i: usize, j: usize)
    requires
        a == "navigate"@ || a == "snapshot"@ || a == "wait_for"@,
        b == "navigate"@ || b == "snapshot"@ || b == "wait_for"@,
    ensures
        snapshot_like(a),
        ({
            let after_a = if snapshot_like(a) { s.push(i) } else { s };
            let after_b = if snapshot_like(b) { after_a.push(j) } else { after_a };
            spec_elided(after_b, 1) == s.push(i)
        }),
{
    let t = s.push(i).push(j);
    assert(t.take(t.len() - 1) =~= s.push(i));
}

/// What the loop does after a model turn.
pub enum TurnVerdict {
    /// Run the turn's tool calls.
    RunTools,
    /// Record the reply, add `NUDGE_TEXT` as a user message, and ask again.
    Nudge,
}

/// The outcome of a model turn, as the loop sees it.
pub enum TurnView {
    RunTools,
    Nudge,
    /// Ended with `NoProgress`.
    Stuck,
    /// Anything else (never produced).
    Other,
}

/// A turn decision, as the loop sees it.
pub open spec fn turn_view(r: Result<TurnVerdict, AgentError>) -> TurnView {
    match r {
        Ok(TurnVerdict::RunTools) => TurnView::RunTools,
        Ok(TurnVerdict::Nudge) => TurnView::Nudge,
        Err(AgentError::NoProgress) => TurnView::Stuck,
        Err(_) => TurnView::Other,
    }
}

/// The nudge count after a turn with `tool_calls` tool calls, and what the
/// loop does: a turn with calls clears the count and runs them; a turn
/// without is nudged, unless the count would reach
/// `MAX_CONSECUTIVE_NUDGES`, which ends the run as stuck.
pub open spec fn spec_turn(nudges: u32, tool_calls: nat) -> (u32, TurnView) {
    if tool_calls > 0 {
        (0, TurnView::RunTools)
    } else if nudges + 1 >= MAX_CONSECUTIVE_NUDGES {
        (nudges, TurnView::Stuck)
    } else {
        ((nudges + 1) as u32, TurnView::Nudge)
    }
}

/// What a tool call means to the loop.
pub enum CallVerdict {
    /// The task is over with this outcome.
    Finish(TaskOutcome),
    /// Plan and run the call as a session tool.
    Execute,
}

/// How a screenshot reaches the model.
pub enum ScreenshotRoute {
    /// The driver sees images: the tool result says `SCREENSHOT_FOLLOWS_TEXT`
    /// and a user message carries the image.
    Inline,
    /// A vision role describes the image and the description is the result.
    Interpret,
    /// Nobody can see it: the result is `NO_VISION_TEXT`.
    Unavailable,
}

/// The loop's state between model calls.
pub struct StepLoop {
    max_steps: u32,
    max_retained_snapshots: u32,
    step: u32,
    consecutive_nudges: u32,
    snapshot_indices: Vec<usize>,
}

impl StepLoop {
    /// The step budget.
    pub closed spec fn max_steps(&self) -> u32 {
        self.max_steps
    }

    /// How many snapshot results stay in the conversation.
    pub closed spec fn retained(&self) -> u32 {
        self.max_retained_snapshots
    }

    /// Steps begun so far.
    pub closed spec fn step(&self) -> u32 {
        self.step
    }

    /// Consecutive model turns without a tool call.
    pub closed spec fn nudges(&self) -> u32 {
        self.consecutive_nudges
    }

    /// Message indices of snapshot results, oldest first.
    pub closed spec fn snapshots(&self) -> Seq<usize> {
        self.snapshot_indices@
    }

    /// The step count stays within the budget and the nudge count below
    /// the limit.
    pub open spec fn wf(&self) -> bool {
        self.step() <= self.max_steps() && self.nudges() < MAX_CONSECUTIVE_NUDGES
    }

    /// A loop that has run no step yet.
    pub fn new(max_steps: u32, max_retained_snapshots: u32) -> (r: Self)
        ensures
            r.wf(),
            r.max_steps() == max_steps,
            r.retained() == max_retained_snapshots,
            r.step() == 0,
            r.nudges() == 0,
            r.snapshots() == Seq::<usize>::empty(),
    {
        StepLoop { max_steps, max_retained_snapshots, step: 0, consecutive_nudges: 0, snapshot_indices: Vec::new() }
    }

    /// Starts the next step: a run over its time budget fails with
    /// `TaskTimeout`, one that has used its step budget with
    /// `MaxStepsExceeded`; otherwise the step count grows by one and the
    /// result is the progress event and the snapshot results to elide
    /// before the model call.
    pub fn begin_step(&mut self, timed_out: bool) -> (r: Result<(AgentEvent, Vec<usize>), AgentError>)
        requires
            old(self).wf(),
        ensures
            final(self).wf(),
            final(self).max_steps() == old(self).max_steps(),
            final(self).retained() == old(self).retained(),
            final(self).nudges() == old(self).nudges(),
            final(self).snapshots() == old(self).snapshots(),
            timed_out ==> (r matches Err(AgentError::TaskTimeout) && final(self).step() == old(self).step()),
            !timed_out && old(self).step() == old(self).max_steps() ==> (r matches Err(AgentError::MaxStepsExceeded(m))
                && m == old(self).max_steps() && final(self).step() == old(self).step()),
            (r is Ok) == step_begun(*old(self), *final(self)),
            !timed_out && old(self).step() < old(self).max_steps() ==> (r matches Ok((AgentEvent::Step { n, max }, elide))
                && final(self).step() == old(self).step() + 1 && n == final(self).step() && max == old(self).max_steps()
                && elide@ == spec_elided(old(self).snapshots(), old(self).retained() as nat)),
    {
        if timed_out {
            return Err(AgentError::TaskTimeout);
        }
        if self.step >= self.max_steps {
            return Err(AgentError::MaxStepsExceeded(self.max_steps));
        }
        self.step = self.step + 1;
        let elide = snapshots_to_elide(&self.snapshot_indices, self.max_retained_snapshots);
        Ok((AgentEvent::Step { n: self.step, max: self.max_steps }, elide))
    }

    /// Decides what follows a model turn with `tool_calls` tool calls (see
    /// `spec_turn`).
    pub fn on_turn(&mut self, tool_calls: usize) -> (r: Result<TurnVerdict, AgentError>)
        requires
            old(self).wf(),
        ensures
            final(self).wf(),
            final(self).max_steps() == old(self).max_steps(),
            final(self).retained() == old(self).retained(),
            final(self).step() == old(self).step(),
            final(self).snapshots() == old(self).snapshots(),
            final(self).nudges() == spec_turn(old(self).nudges(), tool_calls as nat).0,
            turn_view(r) == spec_turn(old(self).nudges(), tool_calls as nat).1,
    {
        if tool_calls == 0 {
            if self.consecutive_nudges + 1 >= MAX_CONSECUTIVE_NUDGES {
                return Err(AgentError::NoProgress);
            }
            self.consecutive_nudges = self.consecutive_nudges + 1;
            return Ok(TurnVerdict::Nudge);
        }
        self.consecutive_nudges = 0;
        Ok(TurnVerdict::RunTools)
    }

    /// Decides what a tool call means: `task_complete` and `task_failed`
    /// finish the task (with the `summary` or `reason` argument, empty when
    /// absent) after the steps begun so far, at least one and at most the
    /// budget; any other call is executed. Also returns
    /// the progress event, whose argument summary is cut to 200 characters.
    pub fn on_tool_call(&self, name: &str, arguments: &str) -> (r: (AgentEvent, CallVerdict))
        requires
            self.wf(),
            1 <= self.step(),
        ensures
            r.1 matches CallVerdict::Finish(o) ==> 1 <= o.steps_used <= self.max_steps(),
            r.0 matches AgentEvent::ToolCall { name: n, args_summary: a }
                && n@ == name@ && a@ == spec_truncate(arguments@, 200),
            name@ == "task_complete"@ ==> (r.1 matches CallVerdict::Finish(o) && o.passed
                && o.summary@ == match json_str_field(arguments@, "summary"@) { Some(t) => t, None => Seq::empty() }
                && o.steps_used == self.step()),
            name@ == "task_failed"@ ==> (r.1 matches CallVerdict::Finish(o) && !o.passed
                && o.summary@ == match json_str_field(arguments@, "reason"@) { Some(t) => t, None => Seq::empty() }
                && o.steps_used == self.step()),
            name@ != "task_complete"@ && name@ != "task_failed"@ ==> r.1 matches CallVerdict::Execute,
    {
        let event = AgentEvent::ToolCall { name: name.to_owned(), args_summary: truncate_chars(arguments, 200) };
        proof {
            reveal_strlit("task_complete");
            reveal_strlit("task_failed");
            assert("task_complete"@[5] != "task_failed"@[5]);
        }
        if str_eq(name, "task_complete") {
            let summary = match extract_field(arguments, "summary") {
                Some(s) => s,
                None => String::new(),
            };
            return (event, CallVerdict::Finish(TaskOutcome { passed: true, summary, steps_used: self.step }));
        }
        if str_eq(name, "task_failed") {
            let reason = match extract_field(arguments, "reason") {
                Some(s) => s,
                None => String::new(),
            };
            return (event, CallVerdict::Finish(TaskOutcome { passed: false, summary: reason, steps_used: self.step }));
        }
        (event, CallVerdict::Execute)
    }

    /// Records a text tool result that is about to be appended to the
    /// conversation at `message_index`: a snapshot-like result is
    /// remembered for pruning. Returns the progress event, whose summary is
    /// cut to 300 characters and which is `ok` unless the text starts with
    /// `error:` or `assertion failed`.
    pub fn on_text_result(&mut self, name: &str, text: &str, message_index: usize) -> (r: AgentEvent)
        requires
            old(self).wf(),
        ensures
            final(self).wf(),
            final(self).max_steps() == old(self).max_steps(),
            final(self).retained() == old(self).retained(),
            final(self).step() == old(self).step(),
            final(self).nudges() == old(self).nudges(),
            final(self).snapshots() == if snapshot_like(name@) {
                old(self).snapshots().push(message_index)
            } else {
                old(self).snapshots()
            },
            name@ == "navigate"@ || name@ == "snapshot"@ || name@ == "wait_for"@ ==> final(self).snapshots()
                == old(self).snapshots().push(message_index),
            r matches AgentEvent::ToolResult { name: n, ok, summary }
                && n@ == name@ && ok == result_ok(text@) && summary@ == spec_truncate(text@, 300),
    {
        let t = chars_of(text);
        let e = chars_of("error:");
        let a = chars_of("assertion failed");
        let ok = !starts_with(&t, &e) && !starts_with(&t, &a);
        if str_eq(name, "navigate") || str_eq(name, "snapshot") || str_eq(name, "wait_for") {
            self.snapshot_indices.push(message_index);
        }
        AgentEvent::ToolResult { name: name.to_owned(), ok, summary: truncate_chars(text, 300) }
    }
}

/// A step began: the step count grew by one within the same budget.
pub open spec fn step_begun(before: StepLoop, after: StepLoop) -> bool {
    after.step() == before.step() + 1 && after.max_steps() == before.max_steps()
}

/// A run asks the driver at most `max_steps` times: along the states of a
/// loop that starts fresh and then only begins steps (each a successful
/// `begin_step`), the n-th state has begun n steps, and there are at most
/// `max_steps` of them.
pub proof fn a_run_begins_at_most_max_steps_steps(states: Seq<StepLoop>)
    requires
        states.len() >= 1,
        states[0].step() == 0,
        forall|k: int| 0 <= k < states.len() ==> #[trigger] states[k].wf(),
        forall|k: int| 0 <= k < states.len() - 1 ==> step_begun(#[trigger] states[k], states[k + 1]),
    ensures
        forall|k: int| 0 <= k < states.len() ==> #[trigger] states[k].step() == k
            && states[k].max_steps() == states[0].max_steps(),
        states.len() - 1 <= states[0].max_steps(),
    decreases states.len(),
{
    if states.len() > 1 {
        let front = states.drop_last();
        assert forall|k: int| 0 <= k < front.len() implies #[trigger] front[k].wf() by {
            assert(front[k] == states[k]);
        }
        assert forall|k: int| 0 <= k < front.len() - 1 implies step_begun(#[trigger] front[k], front[k + 1]) by {
            assert(front[k] == states[k]);
            assert(front[k + 1] == states[k + 1]);
        }
        a_run_begins_at_most_max_steps_steps(front);
        let last = states.len() - 1;
        assert(step_begun(states[last - 1], states[last]));
        assert(front[last - 1] == states[last - 1]);
        assert forall|k: int| 0 <= k < states.len() implies #[trigger] states[k].step() == k
            && states[k].max_steps() == states[0].max_steps() by {
            if k < last {
                assert(front[k] == states[k]);
            }
        }
        assert(states[last].wf());
    }
}

/// Two model turns in a row without a tool call end a fresh run: the first
/// is nudged, the second stops it as stuck; and a turn with tool calls
/// always runs them and clears the count.
pub proof fn two_silent_turns_end_the_run(nudges: u32, tool_calls: nat)
    requires
        nudges < MAX_CONSECUTIVE_NUDGES,
    ensures
        spec_turn(0, 0).1 == TurnView::Nudge,
        spec_turn(spec_turn(0, 0).0, 0).1 == TurnView::Stuck,
        tool_calls > 0 ==> spec_turn(nudges, tool_calls) == (0u32, TurnView::RunTools),
{
}

/// How a screenshot reaches the model: inline when the driver sees images,
/// otherwise through the vision role when one is configured.
pub fn screenshot_route(driver_has_vision: bool, vision_role_configured: bool) -> (r: ScreenshotRoute)
    ensures
        driver_has_vision ==> r is Inline,
        !driver_has_vision && vision_role_configured ==> r is Interpret,
        !driver_has_vision && !vision_role_configured ==> r is Unavailable,
{
    if driver_has_vision {
        ScreenshotRoute::Inline
    } else if vision_role_configured {
        ScreenshotRoute::Interpret
    } else {
        ScreenshotRoute::Unavailable
    }
}

/// The base64 text of a PNG shown inline.
pub fn inline_image_b64(png: &[u8]) -> (r: String)
    ensures
        r@ == base64_standard(png@),
{
    base64_encode(png)
}

/// The progress event of a screenshot shown inline.
pub fn inline_screenshot_event(name: &str) -> (r: AgentEvent)
    ensures
        r matches AgentEvent::ToolResult { name: n, ok, summary } && n@ == name@ && ok && summary@ == "screenshot (inline)"@,
{
    AgentEvent::ToolResult { name: name.to_owned(), ok: true, summary: "screenshot (inline)".to_owned() }
}

/// The progress events of a screenshot the vision role described: its
/// length in characters, then the result with the description cut to 300
/// characters.
pub fn interpreted_screenshot_events(name: &str, interpretation: &str) -> (r: (AgentEvent, AgentEvent))
    ensures
        r.0 matches AgentEvent::Vision { chars } && chars == interpretation@.len(),
        r.1 matches AgentEvent::ToolResult { name: n, ok, summary }
            && n@ == name@ && ok && summary@ == spec_truncate(interpretation@, 300),
{
    let v = chars_of(interpretation);
    (
        AgentEvent::Vision { chars: v.len() },
        AgentEvent::ToolResult { name: name.to_owned(), ok: true, summary: truncate_chars(interpretation, 300) },
    )
}

/// The progress event of a screenshot nobody can see.
pub fn unavailable_screenshot_event(name: &str) -> (r: AgentEvent)
    ensures
        r matches AgentEvent::ToolResult { name: n, ok, summary } && n@ == name@ && !ok && summary@ == NO_VISION_TEXT@,
{
    AgentEvent::ToolResult { name: name.to_owned(), ok: false, summary: NO_VISION_TEXT.to_owned() }
}

} // verus!
