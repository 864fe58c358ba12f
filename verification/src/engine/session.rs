//! The session's bookkeeping: which pages are attached and which one
//! actions target, persona selection, and the one-line action summaries
//! a trace records.

use vstd::prelude::*;
use crate::engine::error::EngineError;
use crate::engine::keys::{key_code, lookup, KeySpec};
use crate::engine::yaml_runner::{assert_summaries_read_back, parse_action, summaries_read_back_as_steps, StepView};
use crate::text::{chars_of, contains_seq, debug_plain, debug_quoted, debug_str, decimal, find, find_first, occurs_at, replace_all, replace_str, str_eq, string_of, u64_decimal};
use crate::paths::{join, join_path, PathStyle};

verus! {

/// The character sequences of a list of ids.
pub open spec fn ids(v: Seq<String>) -> Seq<Seq<char>> {
    v.map_values(|p: String| p@)
}

/// One attached page, as `list_pages` reports it.
pub struct PageInfo {
    pub page_id: String,
    pub url: String,
    pub title: String,
    pub active: bool,
}

/// The pages a session has attached (by CDP target id), the one every
/// action targets, and the one it launched with.
pub struct PageRegistry {
    pages: Vec<String>,
    active: String,
    primary: String,
}

impl PageRegistry {
    /// The attached page ids, in attach order.
    pub closed spec fn pages(&self) -> Seq<Seq<char>> {
        ids(self.pages@)
    }

    /// The page actions target.
    pub closed spec fn active(&self) -> Seq<char> {
        self.active@
    }

    /// The page the session was launched with.
    pub closed spec fn primary(&self) -> Seq<char> {
        self.primary@
    }

    /// No page is tracked twice, and the active page is tracked or is the
    /// primary page.
    pub open spec fn wf(&self) -> bool {
        &&& self.pages().no_duplicates()
        &&& (self.pages().contains(self.active()) || self.active() == self.primary())
    }

    /// A registry holding only the launch page, which is active.
    pub fn new(primary: &str) -> (r: Self)
        ensures
            r.wf(),
            r.pages() == seq![primary@],
            r.active() == primary@,
            r.primary() == primary@,
    {
        let mut pages: Vec<String> = Vec::new();
        pages.push(primary.to_owned());
        let r = PageRegistry { pages, active: primary.to_owned(), primary: primary.to_owned() };
        assert(r.pages() =~= seq![primary@]);
        r
    }

    fn index_of(&self, id: &str) -> (r: Option<usize>)
        ensures
            match r {
                Some(i) => i < self.pages().len() && self.pages()[i as int] == id@,
                None => !self.pages().contains(id@),
            },
    {
        let mut i: usize = 0;
        while i < self.pages.len()
            invariant
                i <= self.pages.len(),
                forall|j: int| 0 <= j < i ==> self.pages()[j] != id@,
            decreases self.pages.len() - i,
        {
            if str_eq(self.pages[i].as_str(), id) {
                return Some(i);
            }
            i += 1;
        }
        None
    }

    /// Whether `id` is attached.
    pub fn contains(&self, id: &str) -> (r: bool)
        ensures
            r == self.pages().contains(id@),
    {
        self.index_of(id).is_some()
    }

    /// The id of the page actions target.
    pub fn active_id(&self) -> (r: String)
        ensures
            r@ == self.active(),
    {
        self.active.clone()
    }

    /// The id of the launch page.
    pub fn primary_id(&self) -> (r: String)
        ensures
            r@ == self.primary(),
    {
        self.primary.clone()
    }

    /// Starts tracking a newly attached page (a no-op if already tracked).
    pub fn insert(&mut self, id: &str)
        requires
            old(self).wf(),
        ensures
            final(self).wf(),
            final(self).active() == old(self).active(),
            final(self).primary() == old(self).primary(),
            old(self).pages().contains(id@) ==> final(self).pages() == old(self).pages(),
            !old(self).pages().contains(id@) ==> final(self).pages() == old(self).pages().push(id@),
    {
        if !self.contains(id) {
            self.pages.push(id.to_owned());
            assert(self.pages() =~= old(self).pages().push(id@));
            assert(self.pages().contains(old(self).active()) || self.active() == self.primary()) by {
                if old(self).pages().contains(old(self).active()) {
                    let k = choose|k: int| 0 <= k < old(self).pages().len() && old(self).pages()[k] == old(self).active();
                    assert(self.pages()[k] == old(self).pages()[k]);
                }
            }
        }
    }

    /// Stops tracking a page that went away; if it was the active one, the
    /// launch page becomes active again.
    pub fn forget(&mut self, id: &str)
        requires
            old(self).wf(),
        ensures
            final(self).wf(),
            final(self).primary() == old(self).primary(),
            final(self).pages() == old(self).pages().filter(|p: Seq<char>| p != id@),
            final(self).active() == if old(self).active() == id@ { old(self).primary() } else { old(self).active() },
    {
        let ghost old_pages = self.pages();
        let mut kept: Vec<String> = Vec::new();
        let mut i: usize = 0;
        let ghost pred = |p: Seq<char>| p != id@;
        assert(old_pages.take(0).filter(pred) =~= Seq::<Seq<char>>::empty());
        while i < self.pages.len()
            invariant
                i <= self.pages.len(),
                self.pages() == old_pages,
                old_pages.no_duplicates(),
                pred == (|p: Seq<char>| p != id@),
                self.active == old(self).active,
                self.primary == old(self).primary,
                ids(kept@) == old_pages.take(i as int).filter(pred),
                ids(kept@).no_duplicates(),
                forall|x: Seq<char>| #[trigger] ids(kept@).contains(x)
                    ==> old_pages.take(i as int).contains(x),
            decreases self.pages.len() - i,
        {
            let ghost before = ids(kept@);
            proof {
                assert(old_pages[i as int] == self.pages@[i as int]@);
                assert(old_pages.take(i + 1) =~= old_pages.take(i as int).push(old_pages[i as int]));
                old_pages.take(i as int).lemma_filter_push(old_pages[i as int], pred);
            }
            if !str_eq(self.pages[i].as_str(), id) {
                assert(old_pages[i as int] != id@);
                assert(pred(old_pages[i as int]));
                assert(old_pages.take(i + 1).filter(pred) == old_pages.take(i as int).filter(pred).push(old_pages[i as int]));
                assert(old_pages.take(i + 1).filter(pred) == before.push(old_pages[i as int]));
                kept.push(self.pages[i].clone());
                let ghost now = ids(kept@);
                assert(now =~= before.push(old_pages[i as int]));
                proof {
                    if before.contains(old_pages[i as int]) {
                        let j = choose|j: int| 0 <= j < i && old_pages.take(i as int)[j] == old_pages[i as int];
                        assert(old_pages[j] == old_pages[i as int]);
                    }
                }
                assert forall|a: int, b: int| 0 <= a < b < now.len() implies now[a] != now[b] by {
                    if b == now.len() - 1 {
                        assert(before.contains(before[a]));
                    }
                }
                assert forall|x: Seq<char>| #[trigger] now.contains(x) implies old_pages.take(i + 1).contains(x) by {
                    let k = choose|k: int| 0 <= k < now.len() && now[k] == x;
                    if k < before.len() {
                        assert(before.contains(x));
                        let j = choose|j: int| 0 <= j < i && old_pages.take(i as int)[j] == x;
                        assert(old_pages.take(i + 1)[j] == x);
                    } else {
                        assert(old_pages.take(i + 1)[i as int] == x);
                    }
                }
            } else {
                assert(old_pages.take(i + 1).filter(pred) == before);
                assert forall|x: Seq<char>| #[trigger] before.contains(x) implies old_pages.take(i + 1).contains(x) by {
                    let j = choose|j: int| 0 <= j < i && old_pages.take(i as int)[j] == x;
                    assert(old_pages.take(i + 1)[j] == x);
                }
            }
            i += 1;
        }
        assert(old_pages.take(old_pages.len() as int) =~= old_pages);
        proof {
            broadcast use vstd::seq_lib::group_filter_ensures;
        }
        self.pages = kept;
        if str_eq(self.active.as_str(), id) {
            self.active = self.primary.clone();
        }
        proof {
            if self.active() != self.primary() {
                assert(old(self).pages().contains(self.active()));
                let k = choose|k: int| 0 <= k < old_pages.len() && old_pages[k] == self.active();
                assert(pred(old_pages[k]));
                assert(old_pages.filter(pred).contains(self.active()));
            }
        }
    }

    /// Makes `id` the page actions target; an id that is not attached is
    /// refused and changes nothing.
    pub fn switch_to(&mut self, id: &str) -> (r: Result<(), EngineError>)
        requires
            old(self).wf(),
        ensures
            final(self).wf(),
            final(self).pages() == old(self).pages(),
            final(self).primary() == old(self).primary(),
            old(self).pages().contains(id@) ==> r is Ok && final(self).active() == id@,
            !old(self).pages().contains(id@) ==> (r matches Err(EngineError::UnknownPage(p)) && p@ == id@
                && final(self).active() == old(self).active()),
    {
        if !self.contains(id) {
            return Err(EngineError::UnknownPage(id.to_owned()));
        }
        self.active = id.to_owned();
        Ok(())
    }

    /// Whether a newly created target should be attached as a page of this
    /// session: a top-level page, in this session's browser context, not
    /// already tracked.
    pub fn should_attach(&self, target_type: &str, browser_context_id: Option<&str>, context_id: &str, target_id: &str) -> (r: bool)
        ensures
            r == (target_type@ == "page"@ && (browser_context_id matches Some(c) && c@ == context_id@)
                && !self.pages().contains(target_id@)),
    {
        if !str_eq(target_type, "page") {
            return false;
        }
        match browser_context_id {
            Some(c) => {
                if !str_eq(c, context_id) {
                    return false;
                }
            },
            None => return false,
        }
        !self.contains(target_id)
    }

    /// The `list_pages` rows for pages whose info could be fetched, each
    /// marked active when it is the page actions target.
    pub fn page_infos(&self, fetched: Vec<(String, String, String)>) -> (r: Vec<PageInfo>)
        ensures
            r.len() == fetched.len(),
            forall|i: int| 0 <= i < fetched.len() ==> {
                let info = #[trigger] r@[i];
                &&& info.page_id@ == fetched@[i].0@
                &&& info.url@ == fetched@[i].1@
                &&& info.title@ == fetched@[i].2@
                &&& info.active == (fetched@[i].0@ == self.active())
            },
    {
        let mut out: Vec<PageInfo> = Vec::new();
        let mut i: usize = 0;
        while i < fetched.len()
            invariant
                i <= fetched.len(),
                out.len() == i,
                forall|k: int| 0 <= k < i ==> {
                    let info = #[trigger] out@[k];
                    &&& info.page_id@ == fetched@[k].0@
                    &&& info.url@ == fetched@[k].1@
                    &&& info.title@ == fetched@[k].2@
                    &&& info.active == (fetched@[k].0@ == self.active())
                },
            decreases fetched.len() - i,
        {
            let (id, url, title) = (fetched[i].0.clone(), fetched[i].1.clone(), fetched[i].2.clone());
            let active = str_eq(id.as_str(), self.active.as_str());
            out.push(PageInfo { page_id: id, url, title, active });
            i += 1;
        }
        out
    }
}

/// Once the active page goes away, actions target the launch page.
pub proof fn closing_the_active_page_falls_back_to_primary(before: PageRegistry, after: PageRegistry, id: Seq<char>)
    requires
        before.wf(),
        before.active() == id,
        after.primary() == before.primary(),
        after.pages() == before.pages().filter(|p: Seq<char>| p != id),
        after.active() == if before.active() == id { before.primary() } else { before.active() },
    ensures
        after.active() == before.primary(),
        !after.pages().contains(id),
{
    let pred = |p: Seq<char>| p != id;
    broadcast use vstd::seq_lib::group_filter_ensures;
    if after.pages().contains(id) {
        let k = choose|k: int| 0 <= k < after.pages().len() && after.pages()[k] == id;
        assert(pred(after.pages()[k]));
    }
}

/// Where a click or type gets its timing persona from.
pub enum PersonaSource {
    /// One of the built-in presets.
    Preset(PersonaPreset),
    /// A profile trained from a real human, loaded by this name.
    Trained(String),
}

/// The built-in personas.
pub enum PersonaPreset {
    Careful,
    Average,
    Fast,
}

/// The preset a name stands for.
pub open spec fn spec_preset(name: Seq<char>) -> Option<PersonaPreset> {
    if name == "careful"@ {
        Some(PersonaPreset::Careful)
    } else if name == "average"@ {
        Some(PersonaPreset::Average)
    } else if name == "fast"@ {
        Some(PersonaPreset::Fast)
    } else {
        None
    }
}

/// Looks up a built-in persona by name; any other name is refused.
pub fn persona(name: &str) -> (r: Result<PersonaPreset, EngineError>)
    ensures
        match spec_preset(name@) {
            Some(p) => r == Ok::<PersonaPreset, EngineError>(p),
            None => (r matches Err(EngineError::UnknownPersona(n)) && n@ == name@),
        },
{
    if str_eq(name, "careful") {
        Ok(PersonaPreset::Careful)
    } else if str_eq(name, "average") {
        Ok(PersonaPreset::Average)
    } else if str_eq(name, "fast") {
        Ok(PersonaPreset::Fast)
    } else {
        Err(EngineError::UnknownPersona(name.to_owned()))
    }
}

/// Resolves a request's `persona`/`trained_profile` pair: both is
/// ambiguous, a persona name must be a preset, a trained profile is loaded
/// by name, and neither means the average preset.
pub fn persona_or_trained(persona_name: Option<&str>, trained_profile: Option<&str>) -> (r: Result<PersonaSource, EngineError>)
    ensures
        match (persona_name, trained_profile) {
            (Some(_), Some(_)) => r matches Err(EngineError::AmbiguousPersona),
            (Some(n), None) => match spec_preset(n@) {
                Some(p) => r == Ok::<PersonaSource, EngineError>(PersonaSource::Preset(p)),
                None => (r matches Err(EngineError::UnknownPersona(m)) && m@ == n@),
            },
            (None, Some(t)) => (r matches Ok(PersonaSource::Trained(m)) && m@ == t@),
            (None, None) => r == Ok::<PersonaSource, EngineError>(PersonaSource::Preset(PersonaPreset::Average)),
        },
{
    match (persona_name, trained_profile) {
        (Some(_), Some(_)) => Err(EngineError::AmbiguousPersona),
        (Some(n), None) => match persona(n) {
            Ok(p) => Ok(PersonaSource::Preset(p)),
            Err(e) => Err(e),
        },
        (None, Some(t)) => Ok(PersonaSource::Trained(t.to_owned())),
        (None, None) => Ok(PersonaSource::Preset(PersonaPreset::Average)),
    }
}

/// The key a `press` dispatches, or `UnknownKey`.
pub fn key_for_press(key: &str) -> (r: Result<KeySpec, EngineError>)
    ensures
        key_code(key@) is None ==> (r matches Err(EngineError::UnknownKey(k)) && k@ == key@),
        key_code(key@) matches Some(c) ==> (r matches Ok(spec) && spec.key@ == key@ && spec.code@ == key@
            && spec.windows_virtual_key_code == c),
{
    match lookup(key) {
        Some(spec) => Ok(spec),
        None => Err(EngineError::UnknownKey(key.to_owned())),
    }
}

/// `navigate <url>`.
pub fn navigate_summary(url: &str) -> (r: String)
    ensures
        r@ == "navigate "@ + url@,
{
    let mut s = "navigate ".to_owned();
    s.append(url);
    s
}

/// `click <ref>`.
pub fn click_summary(ref_id: &str) -> (r: String)
    ensures
        r@ == "click "@ + ref_id@,
{
    let mut s = "click ".to_owned();
    s.append(ref_id);
    s
}

/// `type <ref> <text, Debug-quoted>`. When the ref has no space and the text is printable ASCII, newlines,
/// tabs and carriage returns, the summary reads back as this very step.
pub fn type_summary(ref_id: &str, text: &str) -> (r: String)
    ensures
        r@ == "type "@ + ref_id@ + " "@ + debug_quoted(text@),
        !ref_id@.contains(' ') && debug_plain(text@) ==> parse_action(r@) == Some(
            StepView::Type { ref_id: ref_id@, text: text@, submit: false }),
{
    let mut s = "type ".to_owned();
    s.append(ref_id);
    s.append(" ");
    let q = debug_str(text);
    s.append(q.as_str());
    proof {
        summaries_read_back_as_steps(ref_id@, ref_id@, text@);
    }
    s
}

/// `press <key>`.
pub fn press_summary(key: &str) -> (r: String)
    ensures
        r@ == "press "@ + key@,
{
    let mut s = "press ".to_owned();
    s.append(key);
    s
}

/// The outcome of an immediate text assertion against a snapshot.
pub struct AssertCheck {
    /// The `assert text=... present=... => pass|fail` line for the trace.
    pub summary: String,
    pub result: Result<(), EngineError>,
}

/// The first `n` characters of `s` (all of it when shorter).
pub open spec fn prefix_chars(s: Seq<char>, n: nat) -> Seq<char> {
    if s.len() <= n { s } else { s.take(n as int) }
}

/// Checks `text`'s presence (or absence) in a snapshot: it holds when the
/// snapshot contains the text exactly when `present`; a failure carries
/// the first 500 characters of the snapshot.
pub fn assert_text_check(snapshot: &str, text: &str, present: bool) -> (r: AssertCheck)
    ensures
        ({
            let holds = contains_seq(snapshot@, text@) == present;
            &&& r.summary@ == "assert text="@ + debug_quoted(text@) + " present="@
                + (if present { "true"@ } else { "false"@ }) + " => "@ + (if holds { "pass"@ } else { "fail"@ })
            &&& holds ==> r.result is Ok
            &&& !holds ==> (r.result matches Err(EngineError::AssertionFailed { text: t, present: p, snapshot_excerpt: e })
                && t@ == text@ && p == present && e@ == prefix_chars(snapshot@, 500))
        }),
        debug_plain(text@) ==> parse_action(r.summary@) == Some(StepView::Assert { text: text@, present }),
{
    let sv = chars_of(snapshot);
    let tv = chars_of(text);
    let at = find(&sv, &tv);
    let found = at.is_some();
    proof {
        reveal(find_first);
        if let Some(i) = at {
            assert(occurs_at(sv@, tv@, i as int));
        }
    }
    let holds = found == present;
    let mut summary = "assert text=".to_owned();
    let q = debug_str(text);
    summary.append(q.as_str());
    summary.append(" present=");
    summary.append(if present { "true" } else { "false" });
    summary.append(" => ");
    summary.append(if holds { "pass" } else { "fail" });
    proof {
        assert_summaries_read_back(text@, present, if holds { "pass"@ } else { "fail"@ });
    }
    if holds {
        return AssertCheck { summary, result: Ok(()) };
    }
    let n: usize = if sv.len() <= 500 { sv.len() } else { 500 };
    let excerpt = string_of(&sv, 0, n);
    assert(sv@.subrange(0, n as int) =~= prefix_chars(snapshot@, 500));
    AssertCheck {
        summary,
        result: Err(EngineError::AssertionFailed { text: text.to_owned(), present, snapshot_excerpt: excerpt }),
    }
}

/// What a `wait_for` poll decides.
pub enum WaitVerdict {
    /// The text is on the page: the snapshot is the result.
    Found,
    /// The deadline passed without it.
    TimedOut(EngineError),
    /// Poll again after the interval.
    Poll,
}

/// How long `wait_for` sleeps between polls.
pub const WAIT_FOR_POLL_INTERVAL_MS: u64 = 250;

/// How long an action waits for its element to become actionable.
pub const DEFAULT_ACTION_TIMEOUT_MS: u64 = 5000;

/// How long a navigation may take.
pub const NAVIGATE_TIMEOUT_MS: u64 = 30000;

/// Decides one `wait_for` poll: done when the snapshot contains `text`;
/// otherwise timed out once the deadline has passed, else poll again.
pub fn wait_for_verdict(snapshot: &str, text: &str, deadline_passed: bool, timeout_ms: u64) -> (r: WaitVerdict)
    ensures
        contains_seq(snapshot@, text@) ==> r is Found,
        !contains_seq(snapshot@, text@) && deadline_passed ==> (r matches WaitVerdict::TimedOut(EngineError::WaitTimeout { text: t, timeout_ms: ms })
            && t@ == text@ && ms == timeout_ms),
        !contains_seq(snapshot@, text@) && !deadline_passed ==> r is Poll,
{
    let sv = chars_of(snapshot);
    let tv = chars_of(text);
    let at = find(&sv, &tv);
    proof {
        reveal(find_first);
        if let Some(i) = at {
            assert(occurs_at(sv@, tv@, i as int));
        }
    }
    if at.is_some() {
        WaitVerdict::Found
    } else if deadline_passed {
        WaitVerdict::TimedOut(EngineError::WaitTimeout { text: text.to_owned(), timeout_ms })
    } else {
        WaitVerdict::Poll
    }
}

/// The placeholder the seeded-random script carries for its seed.
pub const SEED_PLACEHOLDER: &'static str = "%SEED%";

/// The placeholder the virtual-clock script carries for its start time.
pub const START_TIME_PLACEHOLDER: &'static str = "%START_TIME_MS%";

/// The seeded-random init script: every `%SEED%` in `template` replaced by
/// the seed's low 32 bits in decimal.
pub fn seed_script(template: &str, seed: u64) -> (r: String)
    ensures
        r@ == replace_all(template@, SEED_PLACEHOLDER@, decimal((seed % 0x1_0000_0000) as nat)),
{
    let low = u64_decimal(seed % 0x1_0000_0000);
    proof {
        reveal_strlit("%SEED%");
    }
    replace_str(template, SEED_PLACEHOLDER, low.as_str())
}

/// The virtual-clock init script: every `%START_TIME_MS%` in `template`
/// replaced by the start time in decimal.
pub fn clock_script(template: &str, time_ms: u64) -> (r: String)
    ensures
        r@ == replace_all(template@, START_TIME_PLACEHOLDER@, decimal(time_ms as nat)),
{
    let t = u64_decimal(time_ms);
    proof {
        reveal_strlit("%START_TIME_MS%");
    }
    replace_str(template, START_TIME_PLACEHOLDER, t.as_str())
}

/// The expression that advances the installed virtual clock by `ms` and
/// reports whether one was installed.
pub fn advance_clock_expression(ms: u64) -> (r: String)
    ensures
        r@ == "typeof window.__aibAdvanceClock === 'function' ? (window.__aibAdvanceClock("@ + decimal(ms as nat)
            + "), true) : false"@,
{
    let mut e = "typeof window.__aibAdvanceClock === 'function' ? (window.__aibAdvanceClock(".to_owned();
    let d = u64_decimal(ms);
    e.append(d.as_str());
    e.append("), true) : false");
    e
}

/// What advancing the clock returned: `true` means it advanced; anything
/// else (`false`, or not a boolean) means no clock is installed.
pub fn clock_advanced(result: Option<bool>) -> (r: Result<(), EngineError>)
    ensures
        result == Some(true) ==> r is Ok,
        result != Some(true) ==> (r matches Err(EngineError::Clock(m))
            && m@ == "no virtual clock is installed on the current page; call browser_set_clock (and browser_navigate) first"@),
{
    match result {
        Some(true) => Ok(()),
        _ => Err(EngineError::Clock(
            "no virtual clock is installed on the current page; call browser_set_clock (and browser_navigate) first".to_owned(),
        )),
    }
}

/// The expression that tells the training recorder to ignore (`true`) or
/// again record (`false`) the session's own synthetic input.
pub fn training_suppression_expression(suppress: bool) -> (r: &'static str)
    ensures
        r@ == if suppress { "window.__aibSuppressTraining = true"@ } else { "window.__aibSuppressTraining = false"@ },
{
    if suppress {
        "window.__aibSuppressTraining = true"
    } else {
        "window.__aibSuppressTraining = false"
    }
}

/// Where recordings are written under the per-user data directory `base`:
/// `<base>/aib/recordings`.
pub fn recordings_base(base: &str, style: &PathStyle) -> (r: String)
    ensures
        r@ == join(join(base@, "aib"@, *style), "recordings"@, *style),
{
    let a = join_path(base, "aib", style);
    join_path(a.as_str(), "recordings", style)
}

} // verus!
