//! Network recording to a named cassette and replay from it. Recording
//! correlates a request's start (method, URL), its response (status,
//! headers) and its end (body now fetchable) by request id; replay answers
//! each intercepted request with the next unused recorded entry for the
//! same method and URL, and fails a request nothing was recorded for.

use vstd::prelude::*;
use crate::engine::error::EngineError;
use crate::codec::{base64_encode, base64_standard};
use crate::paths::{join, join_path, PathStyle};
use crate::text::{debug_quoted, debug_str, str_eq};
use vstd::utf8::encode_utf8;

verus! {

/// The longest a network recording runs before it stops by itself.
pub const MAX_NETWORK_RECORDING_DURATION_MS: u64 = 300000;

/// One recorded request/response pair.
pub struct CassetteEntry {
    pub method: String,
    pub url: String,
    pub status: i64,
    pub headers: Vec<(String, String)>,
    /// The response body, base64-encoded whatever its content type.
    pub body_base64: String,
}

/// A named recording: its entries in the order the requests finished.
pub struct Cassette {
    pub entries: Vec<CassetteEntry>,
}

impl Default for Cassette {
    fn default() -> (r: Self)
        ensures
            r.entries@.len() == 0,
    {
        Cassette { entries: Vec::new() }
    }
}

/// What a finished network recording reports.
pub struct NetworkRecordingSummary {
    pub name: String,
    pub entry_count: usize,
    pub path: String,
}

/// Where cassettes live under the per-user data directory `base`:
/// `<base>/aib/network`.
pub open spec fn spec_cassettes_dir(base: Seq<char>, style: PathStyle) -> Seq<char> {
    join(join(base, "aib"@, style), "network"@, style)
}

/// The directory that holds every cassette.
pub fn cassettes_dir(base: &str, style: &PathStyle) -> (r: String)
    ensures
        r@ == spec_cassettes_dir(base@, *style),
{
    let a = join_path(base, "aib", style);
    join_path(a.as_str(), "network", style)
}

/// The file of the cassette `name`: `<name>.json` in the cassettes
/// directory.
pub fn cassette_path(base: &str, name: &str, style: &PathStyle) -> (r: String)
    ensures
        r@ == join(spec_cassettes_dir(base@, *style), name@ + ".json"@, *style),
{
    let dir = cassettes_dir(base, style);
    let mut file = name.to_owned();
    file.append(".json");
    join_path(dir.as_str(), file.as_str(), style)
}

/// Where trained personas live under the per-user data directory `base`:
/// `<base>/aib/profiles/human`.
pub open spec fn spec_profiles_dir(base: Seq<char>, style: PathStyle) -> Seq<char> {
    join(join(join(base, "aib"@, style), "profiles"@, style), "human"@, style)
}

/// The directory that holds every trained persona.
pub fn profiles_dir(base: &str, style: &PathStyle) -> (r: String)
    ensures
        r@ == spec_profiles_dir(base@, *style),
{
    let a = join_path(base, "aib", style);
    let b = join_path(a.as_str(), "profiles", style);
    join_path(b.as_str(), "human", style)
}

/// The file of the trained persona `name`: `<name>.json` in the profiles
/// directory.
pub fn profile_path(base: &str, name: &str, style: &PathStyle) -> (r: String)
    ensures
        r@ == join(spec_profiles_dir(base@, *style), name@ + ".json"@, *style),
{
    let dir = profiles_dir(base, style);
    let mut file = name.to_owned();
    file.append(".json");
    join_path(dir.as_str(), file.as_str(), style)
}

/// Loading a cassette that was never saved: `UnknownCassette`.
pub fn unknown_cassette(name: &str) -> (r: EngineError)
    ensures
        r matches EngineError::UnknownCassette(n) && n@ == name@,
{
    EngineError::UnknownCassette(name.to_owned())
}

/// A cassette file that does not parse: `Network` with the parser's
/// message.
pub fn unparsable_cassette(name: &str, detail: &str) -> (r: EngineError)
    ensures
        r matches EngineError::Network(m)
            && m@ == "failed to parse cassette "@ + debug_quoted(name@) + ": "@ + detail@,
{
    let mut m = "failed to parse cassette ".to_owned();
    let q = debug_str(name);
    m.append(q.as_str());
    m.append(": ");
    m.append(detail);
    EngineError::Network(m)
}

/// Whether `slot` still holds an entry recorded for `method` and `url`.
pub open spec fn answers(slot: Option<CassetteEntry>, method: Seq<char>, url: Seq<char>) -> bool {
    slot matches Some(e) && e.method@ == method && e.url@ == url
}

/// Whether `i` is the first slot that still answers `method` and `url`.
pub open spec fn is_first_answer(slots: Seq<Option<CassetteEntry>>, method: Seq<char>, url: Seq<char>, i: int) -> bool {
    0 <= i < slots.len() && answers(slots[i], method, url)
        && forall|j: int| 0 <= j < i ==> !answers(slots[j], method, url)
}

/// The first slot that still answers `method` and `url`, if any.
pub open spec fn first_answer(slots: Seq<Option<CassetteEntry>>, method: Seq<char>, url: Seq<char>) -> Option<int> {
    if exists|i: int| is_first_answer(slots, method, url, i) {
        Some(choose|i: int| is_first_answer(slots, method, url, i))
    } else {
        None
    }
}

/// Some slot answers exactly when a first one does.
proof fn lemma_first_answer_exists(slots: Seq<Option<CassetteEntry>>, method: Seq<char>, url: Seq<char>, k: int)
    requires
        0 <= k < slots.len(),
        answers(slots[k], method, url),
    ensures
        first_answer(slots, method, url) is Some,
    decreases k,
{
    if exists|j: int| 0 <= j < k && answers(slots[j], method, url) {
        let j = choose|j: int| 0 <= j < k && answers(slots[j], method, url);
        lemma_first_answer_exists(slots, method, url, j);
    } else {
        assert(is_first_answer(slots, method, url, k));
    }
}

/// Replay has nothing for a request exactly when no unused recorded entry
/// matches its method and URL; such a request is failed, never answered
/// with something else.
pub proof fn unmatched_requests_get_no_answer(slots: Seq<Option<CassetteEntry>>, method: Seq<char>, url: Seq<char>)
    ensures
        first_answer(slots, method, url) is None
            <==> forall|i: int| 0 <= i < slots.len() ==> !answers(#[trigger] slots[i], method, url),
{
    if exists|k: int| 0 <= k < slots.len() && answers(slots[k], method, url) {
        let k = choose|k: int| 0 <= k < slots.len() && answers(slots[k], method, url);
        lemma_first_answer_exists(slots, method, url, k);
    }
    if first_answer(slots, method, url) is Some {
        let i = choose|i: int| is_first_answer(slots, method, url, i);
        assert(answers(slots[i], method, url));
    }
}

/// A replay in progress: the cassette's entries in recorded order, each
/// slot emptied once its entry has answered a request.
pub struct ReplayQueue {
    slots: Vec<Option<CassetteEntry>>,
}

impl ReplayQueue {
    /// The slots, in recorded order.
    pub closed spec fn slots(&self) -> Seq<Option<CassetteEntry>> {
        self.slots@
    }

    /// A replay of `cassette` in which no entry has been used yet.
    pub fn new(cassette: Cassette) -> (r: Self)
        ensures
            r.slots().len() == cassette.entries@.len(),
            forall|i: int| 0 <= i < r.slots().len() ==> #[trigger] r.slots()[i] == Some(cassette.entries@[i]),
    {
        let ghost recorded = cassette.entries@;
        let mut entries = cassette.entries;
        let mut rev: Vec<Option<CassetteEntry>> = Vec::new();
        while entries.len() > 0
            invariant
                entries@.len() + rev@.len() == recorded.len(),
                forall|i: int| 0 <= i < entries@.len() ==> #[trigger] entries@[i] == recorded[i],
                forall|k: int| 0 <= k < rev@.len() ==> #[trigger] rev@[k] == Some(recorded[recorded.len() - 1 - k]),
            decreases entries.len(),
        {
            let e = entries.pop().unwrap();
            rev.push(Some(e));
        }
        let mut slots: Vec<Option<CassetteEntry>> = Vec::new();
        while rev.len() > 0
            invariant
                rev@.len() + slots@.len() == recorded.len(),
                forall|k: int| 0 <= k < rev@.len() ==> #[trigger] rev@[k] == Some(recorded[recorded.len() - 1 - k]),
                forall|i: int| 0 <= i < slots@.len() ==> #[trigger] slots@[i] == Some(recorded[i]),
            decreases rev.len(),
        {
            let e = rev.pop().unwrap();
            slots.push(e);
        }
        ReplayQueue { slots }
    }

    /// Answers an intercepted request: the first unused entry recorded for
    /// the same method and URL, which is then used up; `None` (the request
    /// is failed) when no unused entry matches.
    pub fn serve(&mut self, method: &str, url: &str) -> (r: Option<CassetteEntry>)
        ensures
            r is None <==> forall|i: int| 0 <= i < old(self).slots().len() ==> !answers(#[trigger] old(self).slots()[i], method@, url@),
            match first_answer(old(self).slots(), method@, url@) {
                Some(i) => r == old(self).slots()[i] && final(self).slots() == old(self).slots().update(i, None),
                None => r is None && final(self).slots() == old(self).slots(),
            },
    {
        let mut i: usize = 0;
        while i < self.slots.len()
            invariant
                i <= self.slots@.len(),
                self.slots@ == old(self).slots@,
                forall|j: int| 0 <= j < i ==> !answers(self.slots@[j], method@, url@),
            decreases self.slots.len() - i,
        {
            let hit = match &self.slots[i] {
                Some(e) => str_eq(e.method.as_str(), method) && str_eq(e.url.as_str(), url),
                None => false,
            };
            if hit {
                let ghost before = self.slots@;
                proof {
                    assert(answers(before[i as int], method@, url@));
                }
                let old_slot = self.slots.remove(i);
                self.slots.insert(i, None);
                proof {
                    assert(is_first_answer(before, method@, url@, i as int));
                    let k = choose|k: int| is_first_answer(before, method@, url@, k);
                    assert(k == i) by {
                        if k < i {
                            assert(!answers(before[k], method@, url@));
                        } else if k > i {
                            assert(!answers(before[i as int], method@, url@));
                        }
                    }
                    assert(self.slots@ =~= before.update(i as int, None));
                }
                return old_slot;
            }
            i += 1;
        }
        proof {
            if first_answer(self.slots@, method@, url@) is Some {
                let k = choose|k: int| is_first_answer(self.slots@, method@, url@, k);
                assert(!answers(self.slots@[k], method@, url@));
            }
        }
        None
    }
}

/// Using one entry never makes an earlier-recorded entry for the same
/// request available again: successive requests for one method and URL
/// are answered in recorded order.
pub proof fn same_request_answered_in_recorded_order(
    slots: Seq<Option<CassetteEntry>>,
    method: Seq<char>,
    url: Seq<char>,
    i: int,
    j: int,
)
    requires
        first_answer(slots, method, url) == Some(i),
        0 <= i < slots.len(),
        first_answer(slots.update(i, None), method, url) == Some(j),
    ensures
        i < j,
        slots[j] == slots.update(i, None)[j],
{
    let after = slots.update(i, None);
    assert(is_first_answer(slots, method, url, i));
    assert(is_first_answer(after, method, url, j));
    if j <= i {
        if j == i {
            assert(!answers(after[j], method, url));
        } else {
            assert(after[j] == slots[j]);
            assert(!answers(slots[j], method, url));
        }
    }
}

/// A request that has started but not finished.
pub struct PendingEntry {
    pub method: String,
    pub url: String,
    pub status: i64,
    pub headers: Vec<(String, String)>,
}

/// The headers of a response, as character sequences.
pub open spec fn headers_view(h: Seq<(String, String)>) -> Seq<(Seq<char>, Seq<char>)> {
    h.map_values(|p: (String, String)| (p.0@, p.1@))
}

impl View for PendingEntry {
    type V = (Seq<char>, Seq<char>, i64, Seq<(Seq<char>, Seq<char>)>);

    open spec fn view(&self) -> Self::V {
        (self.method@, self.url@, self.status, headers_view(self.headers@))
    }
}

/// The requests a recording is waiting on, by request id.
pub struct PendingRequests {
    ids: Vec<String>,
    entries: Vec<PendingEntry>,
}

/// The character sequences of a list of ids.
pub open spec fn id_views(v: Seq<String>) -> Seq<Seq<char>> {
    v.map_values(|p: String| p@)
}

impl PendingRequests {
    /// The waiting requests, by request id.
    pub closed spec fn pending(&self) -> Map<Seq<char>, (Seq<char>, Seq<char>, i64, Seq<(Seq<char>, Seq<char>)>)> {
        Map::new(
            |k: Seq<char>| id_views(self.ids@).contains(k),
            |k: Seq<char>| self.entries@[id_views(self.ids@).index_of(k)]@,
        )
    }

    /// Each id appears once and has its entry.
    pub closed spec fn wf(&self) -> bool {
        &&& self.ids@.len() == self.entries@.len()
        &&& id_views(self.ids@).no_duplicates()
    }

    /// Nothing is pending.
    pub fn new() -> (r: Self)
        ensures
            r.wf(),
            r.pending() == Map::<Seq<char>, (Seq<char>, Seq<char>, i64, Seq<(Seq<char>, Seq<char>)>)>::empty(),
    {
        let r = PendingRequests { ids: Vec::new(), entries: Vec::new() };
        assert(r.pending() =~= Map::empty());
        r
    }

    proof fn lemma_index_of(&self, i: int)
        requires
            self.wf(),
            0 <= i < self.ids@.len(),
        ensures
            id_views(self.ids@).index_of(self.ids@[i]@) == i,
            self.pending().contains_key(self.ids@[i]@),
            self.pending()[self.ids@[i]@] == self.entries@[i]@,
    {
        let v = id_views(self.ids@);
        assert(v[i] == self.ids@[i]@);
        assert(v.contains(self.ids@[i]@));
        let k = v.index_of(self.ids@[i]@);
        assert(v[k] == v[i]);
    }

    fn position(&self, id: &str) -> (r: Option<usize>)
        requires
            self.wf(),
        ensures
            match r {
                Some(i) => i < self.ids@.len() && self.ids@[i as int]@ == id@,
                None => !self.pending().contains_key(id@),
            },
    {
        let mut i: usize = 0;
        while i < self.ids.len()
            invariant
                i <= self.ids@.len(),
                forall|j: int| 0 <= j < i ==> self.ids@[j]@ != id@,
            decreases self.ids.len() - i,
        {
            if str_eq(self.ids[i].as_str(), id) {
                return Some(i);
            }
            i += 1;
        }
        proof {
            if id_views(self.ids@).contains(id@) {
                let k = choose|k: int| 0 <= k < id_views(self.ids@).len() && id_views(self.ids@)[k] == id@;
                assert(self.ids@[k]@ == id@);
            }
        }
        None
    }

    /// A request started: it now waits under its id with its method and
    /// URL, status 0 and no headers (replacing any request waiting under the
    /// same id).
    pub fn request_started(&mut self, request_id: &str, method: String, url: String)
        requires
            old(self).wf(),
        ensures
            final(self).wf(),
            final(self).pending() == old(self).pending().insert(request_id@, (method@, url@, 0i64, Seq::empty())),
    {
        let entry = PendingEntry { method, url, status: 0, headers: Vec::new() };
        proof {
            assert(headers_view(entry.headers@) =~= Seq::empty());
        }
        match self.position(request_id) {
            Some(i) => {
                let ghost before = *self;
                self.entries.set(i, entry);
                proof {
                    assert forall|k: Seq<char>| #[trigger] self.pending().contains_key(k)
                        == old(self).pending().insert(request_id@, (method@, url@, 0i64, Seq::empty())).contains_key(k) by {
                        if k == request_id@ {
                            before.lemma_index_of(i as int);
                        }
                    }
                    assert forall|k: Seq<char>| #[trigger] self.pending().contains_key(k)
                        implies self.pending()[k] == old(self).pending().insert(request_id@, (method@, url@, 0i64, Seq::empty()))[k] by {
                        let v = id_views(self.ids@);
                        let p = choose|p: int| 0 <= p < v.len() && v[p] == k;
                        assert(self.ids@[p]@ == k);
                        self.lemma_index_of(p);
                        before.lemma_index_of(p);
                        if p == i {
                            assert(k == request_id@);
                        } else {
                            assert(k != request_id@) by {
                                assert(v[p] != v[i as int]);
                            }
                        }
                    }
                    assert(self.pending() =~= old(self).pending().insert(request_id@, (method@, url@, 0i64, Seq::empty())));
                }
            },
            None => {
                let ghost before = *self;
                self.ids.push(request_id.to_owned());
                self.entries.push(entry);
                proof {
                    let v0 = id_views(before.ids@);
                    let v = id_views(self.ids@);
                    assert(v =~= v0.push(request_id@));
                    assert(!v0.contains(request_id@));
                    assert forall|a: int, b: int| 0 <= a < b < v.len() implies v[a] != v[b] by {
                        if b == v.len() - 1 {
                            assert(v0.contains(v0[a]));
                        }
                    }
                    let n = before.ids@.len() as int;
                    assert forall|k: Seq<char>| #[trigger] self.pending().contains_key(k)
                        == old(self).pending().insert(request_id@, (method@, url@, 0i64, Seq::empty())).contains_key(k) by {
                        if v0.contains(k) {
                            let p = choose|p: int| 0 <= p < v0.len() && v0[p] == k;
                            assert(v[p] == k);
                        }
                        if v.contains(k) && k != request_id@ {
                            let p = choose|p: int| 0 <= p < v.len() && v[p] == k;
                            assert(p != n);
                            assert(v0[p] == k);
                        }
                        if k == request_id@ {
                            assert(v[n] == k);
                        }
                    }
                    assert forall|k: Seq<char>| #[trigger] self.pending().contains_key(k)
                        implies self.pending()[k] == old(self).pending().insert(request_id@, (method@, url@, 0i64, Seq::empty()))[k] by {
                        let p = choose|p: int| 0 <= p < v.len() && v[p] == k;
                        assert(self.ids@[p]@ == k);
                        self.lemma_index_of(p);
                        if p < n {
                            before.lemma_index_of(p);
                            assert(k != request_id@);
                        } else {
                            assert(k == request_id@);
                        }
                    }
                    assert(self.pending() =~= old(self).pending().insert(request_id@, (method@, url@, 0i64, Seq::empty())));
                }
            },
        }
    }

    /// A response arrived: a waiting request takes its status and headers;
    /// a response for a request not waiting changes nothing.
    pub fn response_received(&mut self, request_id: &str, status: i64, headers: Vec<(String, String)>)
        requires
            old(self).wf(),
        ensures
            final(self).wf(),
            old(self).pending().contains_key(request_id@) ==> final(self).pending() == old(self).pending().insert(
                request_id@,
                (old(self).pending()[request_id@].0, old(self).pending()[request_id@].1, status, headers_view(headers@)),
            ),
            !old(self).pending().contains_key(request_id@) ==> final(self).pending() == old(self).pending(),
    {
        match self.position(request_id) {
            Some(i) => {
                let ghost before = *self;
                proof {
                    before.lemma_index_of(i as int);
                }
                let entry = PendingEntry {
                    method: self.entries[i].method.clone(),
                    url: self.entries[i].url.clone(),
                    status,
                    headers,
                };
                self.entries.set(i, entry);
                proof {
                    let target = old(self).pending().insert(
                        request_id@,
                        (old(self).pending()[request_id@].0, old(self).pending()[request_id@].1, status, headers_view(headers@)),
                    );
                    let v = id_views(self.ids@);
                    assert forall|k: Seq<char>| #[trigger] self.pending().contains_key(k) == target.contains_key(k) by {
                    }
                    assert forall|k: Seq<char>| #[trigger] self.pending().contains_key(k)
                        implies self.pending()[k] == target[k] by {
                        let p = choose|p: int| 0 <= p < v.len() && v[p] == k;
                        assert(self.ids@[p]@ == k);
                        self.lemma_index_of(p);
                        before.lemma_index_of(p);
                        if p != i {
                            assert(k != request_id@) by {
                                assert(v[p] != v[i as int]);
                            }
                        }
                    }
                    assert(self.pending() =~= target);
                }
            },
            None => {},
        }
    }

    /// A request finished: it stops waiting and its entry is returned;
    /// `None` when no request was waiting under that id.
    pub fn loading_finished(&mut self, request_id: &str) -> (r: Option<PendingEntry>)
        requires
            old(self).wf(),
        ensures
            final(self).wf(),
            old(self).pending().contains_key(request_id@) ==> (r matches Some(e) && e@ == old(self).pending()[request_id@]
                && final(self).pending() == old(self).pending().remove(request_id@)),
            !old(self).pending().contains_key(request_id@) ==> (r is None && final(self).pending() == old(self).pending()),
    {
        match self.position(request_id) {
            Some(i) => {
                let ghost before = *self;
                proof {
                    before.lemma_index_of(i as int);
                }
                let _ = self.ids.remove(i);
                let e = self.entries.remove(i);
                proof {
                    let v0 = id_views(before.ids@);
                    let v = id_views(self.ids@);
                    assert(v =~= v0.remove(i as int));
                    assert forall|a: int, b: int| 0 <= a < b < v.len() implies v[a] != v[b] by {
                        let a0 = if a < i { a } else { a + 1 };
                        let b0 = if b < i { b } else { b + 1 };
                        assert(v[a] == v0[a0] && v[b] == v0[b0]);
                    }
                    let target = old(self).pending().remove(request_id@);
                    assert forall|k: Seq<char>| #[trigger] self.pending().contains_key(k) == target.contains_key(k) by {
                        if v.contains(k) {
                            let p = choose|p: int| 0 <= p < v.len() && v[p] == k;
                            let p0 = if p < i { p } else { p + 1 };
                            assert(v0[p0] == k);
                            assert(v0[p0] != v0[i as int]);
                        }
                        if v0.contains(k) && k != request_id@ {
                            let p0 = choose|p0: int| 0 <= p0 < v0.len() && v0[p0] == k;
                            assert(p0 != i);
                            let p = if p0 < i { p0 } else { p0 - 1 };
                            assert(v[p] == k);
                        }
                    }
                    assert forall|k: Seq<char>| #[trigger] self.pending().contains_key(k)
                        implies self.pending()[k] == target[k] by {
                        let p = choose|p: int| 0 <= p < v.len() && v[p] == k;
                        let p0 = if p < i { p } else { p + 1 };
                        assert(self.ids@[p]@ == k);
                        self.lemma_index_of(p);
                        assert(before.ids@[p0]@ == k);
                        before.lemma_index_of(p0);
                    }
                    assert(self.pending() =~= target);
                }
                Some(e)
            },
            None => None,
        }
    }
}

/// A recorded request carries what its start and its response said: after
/// `request_started` and `response_received` for the same id, the waiting
/// entry has the start's method and URL and the response's status and
/// headers, whatever was waiting under that id before.
pub proof fn recorded_entry_joins_start_and_response(
    before: Map<Seq<char>, (Seq<char>, Seq<char>, i64, Seq<(Seq<char>, Seq<char>)>)>,
    id: Seq<char>,
    method: Seq<char>,
    url: Seq<char>,
    status: i64,
    headers: Seq<(Seq<char>, Seq<char>)>,
)
    ensures
        ({
            let started = before.insert(id, (method, url, 0i64, Seq::empty()));
            let answered = started.insert(id, (started[id].0, started[id].1, status, headers));
            answered.contains_key(id) && answered[id] == (method, url, status, headers)
        }),
{
}

/// The cassette entry of a finished request whose body was fetched: a body
/// that came base64-encoded is kept as is, any other is base64-encoded
/// from its UTF-8 bytes.
pub fn finished_entry(p: PendingEntry, body: String, body_is_base64: bool) -> (r: CassetteEntry)
    ensures
        r.method@ == p.method@,
        r.url@ == p.url@,
        r.status == p.status,
        r.headers@ == p.headers@,
        r.body_base64@ == if body_is_base64 { body@ } else { base64_standard(encode_utf8(body@)) },
{
    let body_base64 = if body_is_base64 {
        body
    } else {
        base64_encode(body.as_str().as_bytes())
    };
    CassetteEntry { method: p.method, url: p.url, status: p.status, headers: p.headers, body_base64 }
}

} // verus!
