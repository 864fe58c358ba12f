//! How one incoming CDP message is routed: a reply to a pending command, an
//! event for a session's subscribers, or nothing.

use vstd::prelude::*;
use crate::cdp::error::CdpError;
use crate::text::{decimal, u64_decimal};

verus! {

/// How many events a session's subscribers may fall behind by before the
/// oldest are dropped (and the subscriber told it lagged).
pub const EVENT_CHANNEL_CAPACITY: usize = 1024;

/// How long a command waits for its reply.
pub const DEFAULT_COMMAND_TIMEOUT_MS: u64 = 30000;

/// The lowercase hexadecimal digit of `n` (`0 <= n < 16`).
pub open spec fn hex_digit(n: int) -> char {
    seq!['0', '1', '2', '3', '4', '5', '6', '7', '8', '9', 'a', 'b', 'c', 'd', 'e', 'f'][n]
}

/// How `serde_json` writes one character inside a string literal: `"` and
/// `\` behind a backslash; backspace, tab, newline, form feed and carriage
/// return as `\b \t \n \f \r`; any other character below U+0020 as
/// `\u00` and two lowercase hex digits; every other character as itself.
pub open spec fn json_escape_char(c: char) -> Seq<char> {
    if c == '"' {
        seq!['\\', '"']
    } else if c == '\\' {
        seq!['\\', '\\']
    } else if c == '\u{8}' {
        seq!['\\', 'b']
    } else if c == '\t' {
        seq!['\\', 't']
    } else if c == '\n' {
        seq!['\\', 'n']
    } else if c == '\u{c}' {
        seq!['\\', 'f']
    } else if c == '\r' {
        seq!['\\', 'r']
    } else if (c as u32) < 0x20 {
        seq!['\\', 'u', '0', '0', hex_digit((c as int) / 16), hex_digit((c as int) % 16)]
    } else {
        seq![c]
    }
}

/// `s` with every character written as `json_escape_char` writes it.
pub open spec fn json_escape_all(s: Seq<char>) -> Seq<char>
    decreases s.len(),
{
    if s.len() == 0 {
        Seq::empty()
    } else {
        json_escape_char(s[0]) + json_escape_all(s.drop_first())
    }
}

/// The JSON string literal of `s`, as `serde_json` writes it: its escaped
/// characters between double quotes.
pub open spec fn json_quoted(s: Seq<char>) -> Seq<char> {
    seq!['"'] + json_escape_all(s) + seq!['"']
}

/// `serde_json::to_string(s)`: `s` as a JSON string literal, escaped by
/// serde_json's table (`ESCAPE` in `ser.rs`). Serialising a `str` into a
/// `Vec` never fails.
#[verifier::external_body]
fn json_string(s: &str) -> (r: String)
    ensures
        r@ == json_quoted(s@),
{
    match serde_json::to_string(s) {
        Ok(t) => t,
        Err(_) => String::new(),
    }
}

/// The text of an outgoing command: its id, method and parameters (JSON
/// text), and the session it is addressed to unless it is browser-level.
pub open spec fn spec_outgoing(id: u64, method: Seq<char>, params: Seq<char>, session_id: Option<Seq<char>>) -> Seq<char> {
    "{\"id\":"@ + decimal(id as nat) + ",\"method\":"@ + json_quoted(method) + ",\"params\":"@ + params
        + match session_id {
            Some(s) => ",\"sessionId\":"@ + json_quoted(s),
            None => Seq::empty(),
        } + "}"@
}

/// Writes one outgoing command message.
pub fn outgoing_message(id: u64, method: &str, params: &str, session_id: Option<&str>) -> (r: String)
    ensures
        r@ == spec_outgoing(id, method@, params@, match session_id { Some(s) => Some(s@), None => None }),
{
    let mut t = "{\"id\":".to_owned();
    let n = u64_decimal(id);
    t.append(n.as_str());
    t.append(",\"method\":");
    let m = json_string(method);
    t.append(m.as_str());
    t.append(",\"params\":");
    t.append(params);
    match session_id {
        Some(s) => {
            t.append(",\"sessionId\":");
            let q = json_string(s);
            t.append(q.as_str());
        },
        None => {
            proof {
                assert(t@ =~= t@ + Seq::<char>::empty());
            }
        },
    }
    t.append("}");
    t
}

/// The commands of a connection that await a reply, the next id to hand
/// out, and whether the connection has closed.
pub struct CommandTable {
    next_id: u64,
    pending: Vec<u64>,
    closed: bool,
}

impl CommandTable {
    /// The id the next command gets.
    pub closed spec fn next_id(&self) -> u64 {
        self.next_id
    }

    /// The ids of commands awaiting a reply, oldest first.
    pub closed spec fn pending(&self) -> Seq<u64> {
        self.pending@
    }

    /// Whether the connection has closed.
    pub closed spec fn is_closed(&self) -> bool {
        self.closed
    }

    /// Every pending id was handed out before and appears once; a closed
    /// connection has nothing pending.
    pub open spec fn wf(&self) -> bool {
        &&& self.pending().no_duplicates()
        &&& forall|i: int| 0 <= i < self.pending().len() ==> #[trigger] self.pending()[i] < self.next_id()
        &&& self.is_closed() ==> self.pending().len() == 0
    }

    /// An open connection with nothing sent; ids start at 1.
    pub fn new() -> (r: Self)
        ensures
            r.wf(),
            r.next_id() == 1,
            r.pending() == Seq::<u64>::empty(),
            !r.is_closed(),
    {
        CommandTable { next_id: 1, pending: Vec::new(), closed: false }
    }

    /// Whether every command id has been handed out (the next one would
    /// overflow).
    pub fn ids_exhausted(&self) -> (r: bool)
        ensures
            r == (self.next_id() == u64::MAX),
    {
        self.next_id == u64::MAX
    }

    /// Registers a command about to be sent: on a closed connection it
    /// fails at once with `Disconnected`; otherwise it gets the next id,
    /// which nothing pending has, and awaits its reply.
    pub fn begin(&mut self) -> (r: Result<u64, CdpError>)
        requires
            old(self).wf(),
            old(self).next_id() < u64::MAX,
        ensures
            final(self).wf(),
            final(self).is_closed() == old(self).is_closed(),
            old(self).is_closed() ==> (r matches Err(CdpError::Disconnected) && final(self).pending() == old(self).pending()
                && final(self).next_id() == old(self).next_id()),
            !old(self).is_closed() ==> (r matches Ok(id) && id == old(self).next_id() && !old(self).pending().contains(id)
                && final(self).pending() == old(self).pending().push(id) && final(self).next_id() == id + 1),
    {
        if self.closed {
            return Err(CdpError::Disconnected);
        }
        let id = self.next_id;
        self.next_id = id + 1;
        self.pending.push(id);
        proof {
            assert(!old(self).pending().contains(id)) by {
                if old(self).pending().contains(id) {
                    let k = choose|k: int| 0 <= k < old(self).pending().len() && old(self).pending()[k] == id;
                    assert(old(self).pending()[k] < old(self).next_id());
                }
            }
            assert forall|a: int, b: int| 0 <= a < b < self.pending().len() implies self.pending()[a] != self.pending()[b] by {
                if b == self.pending().len() - 1 {
                    assert(self.pending()[a] < id);
                }
            }
        }
        Ok(id)
    }

    /// Stops waiting for command `id` (its reply arrived, its send failed,
    /// or it timed out); whether it was waiting.
    pub fn finish(&mut self, id: u64) -> (r: bool)
        requires
            old(self).wf(),
        ensures
            final(self).wf(),
            final(self).is_closed() == old(self).is_closed(),
            final(self).next_id() == old(self).next_id(),
            r == old(self).pending().contains(id),
            final(self).pending() == old(self).pending().filter(|p: u64| p != id),
    {
        let ghost before = self.pending@;
        let ghost pred = |p: u64| p != id;
        let mut kept: Vec<u64> = Vec::new();
        let mut found = false;
        let mut i: usize = 0;
        assert(before.take(0).filter(pred) =~= Seq::<u64>::empty());
        while i < self.pending.len()
            invariant
                self.pending@ == before,
                before == old(self).pending(),
                pred == (|p: u64| p != id),
                i <= before.len(),
                before.no_duplicates(),
                kept@ == before.take(i as int).filter(pred),
                kept@.no_duplicates(),
                forall|x: u64| #[trigger] kept@.contains(x) ==> before.take(i as int).contains(x),
                found == before.take(i as int).contains(id),
            decreases self.pending.len() - i,
        {
            let ghost next = before.take(i + 1);
            let ghost prev = before.take(i as int);
            proof {
                assert(before.take(i + 1) =~= before.take(i as int).push(before[i as int]));
                before.take(i as int).lemma_filter_push(before[i as int], pred);
            }
            if self.pending[i] == id {
                found = true;
                assert(before.take(i + 1)[i as int] == id);
            } else {
                let ghost kb = kept@;
                kept.push(self.pending[i]);
                proof {
                    if kb.contains(before[i as int]) {
                        let j = choose|j: int| 0 <= j < prev.len() && prev[j] == before[i as int];
                        assert(before[j] == before[i as int]);
                    }
                    assert forall|a: int, b: int| 0 <= a < b < kept@.len() implies kept@[a] != kept@[b] by {
                        if b == kept@.len() - 1 {
                            assert(kb.contains(kb[a]));
                        }
                    }
                    assert forall|x: u64| #[trigger] kept@.contains(x) implies before.take(i + 1).contains(x) by {
                        let k = choose|k: int| 0 <= k < kept@.len() && kept@[k] == x;
                        if k < kb.len() {
                            assert(kb.contains(x));
                            let j = choose|j: int| 0 <= j < prev.len() && prev[j] == x;
                            assert(before.take(i + 1)[j] == x);
                        } else {
                            assert(before.take(i + 1)[i as int] == x);
                        }
                    }
                    if before.take(i + 1).contains(id) {
                        let k = choose|k: int| 0 <= k < next.len() && next[k] == id;
                        assert(before.take(i as int)[k] == id);
                    }
                }
            }
            proof {
                if before.take(i as int).contains(id) {
                    let k = choose|k: int| 0 <= k < prev.len() && prev[k] == id;
                    assert(before.take(i + 1)[k] == id);
                }
                assert forall|x: u64| #[trigger] kept@.contains(x) implies before.take(i + 1).contains(x) by {
                    if before.take(i as int).contains(x) {
                        let j = choose|j: int| 0 <= j < prev.len() && prev[j] == x;
                        assert(before.take(i + 1)[j] == x);
                    }
                }
            }
            i += 1;
        }
        assert(before.take(before.len() as int) =~= before);
        proof {
            assert forall|k: int| 0 <= k < kept@.len() implies #[trigger] kept@[k] < old(self).next_id() by {
                assert(kept@.contains(kept@[k]));
                let j = choose|j: int| 0 <= j < before.len() && before.take(before.len() as int)[j] == kept@[k];
                assert(before[j] < old(self).next_id());
            }
        }
        self.pending = kept;
        found
    }

    /// The connection closed: every command still awaiting a reply is
    /// returned (each fails with `Disconnected`), nothing stays pending, and
    /// every later command fails at once.
    pub fn close(&mut self) -> (r: Vec<u64>)
        requires
            old(self).wf(),
        ensures
            final(self).wf(),
            final(self).is_closed(),
            final(self).pending() == Seq::<u64>::empty(),
            final(self).next_id() == old(self).next_id(),
            r@ == old(self).pending(),
    {
        self.closed = true;
        let mut failed: Vec<u64> = Vec::new();
        std::mem::swap(&mut failed, &mut self.pending);
        failed
    }
}

/// An error object in a command reply.
pub struct ProtocolError {
    pub code: i64,
    pub message: String,
}

/// The fields of one incoming message that routing reads; JSON values are
/// kept as their JSON text.
pub struct IncomingMessage {
    pub id: Option<u64>,
    pub session_id: Option<String>,
    pub method: Option<String>,
    pub params: String,
    pub result: Option<String>,
    pub error: Option<ProtocolError>,
}

/// Where an incoming message goes.
pub enum Route {
    /// Completes the pending command `id` with its result (JSON text) or
    /// its protocol error.
    Reply { id: u64, outcome: Result<String, CdpError> },
    /// Broadcast to the subscribers of `session_id`.
    Event { session_id: Option<String>, method: String, params: String },
    /// Neither an id nor a method: dropped.
    Ignore,
}

/// Routes one message: anything with an `id` is a command reply (an
/// `error` object makes it a protocol error, a missing `result` reads as
/// `null`); otherwise anything with a `method` is an event; the rest is
/// dropped.
pub fn route_incoming(msg: IncomingMessage) -> (r: Route)
    ensures
        match msg.id {
            Some(id) => match r {
                Route::Reply { id: rid, outcome } => rid == id && match msg.error {
                    Some(e) => outcome matches Err(CdpError::Protocol { code, message })
                        && code == e.code && message@ == e.message@,
                    None => match msg.result {
                        Some(v) => outcome matches Ok(t) && t@ == v@,
                        None => outcome matches Ok(t) && t@ == "null"@,
                    },
                },
                _ => false,
            },
            None => match msg.method {
                Some(m) => r matches Route::Event { session_id, method, params }
                    && session_id == msg.session_id && method@ == m@ && params@ == msg.params@,
                None => r is Ignore,
            },
        },
{
    match msg.id {
        Some(id) => {
            let outcome = match msg.error {
                Some(e) => Err(CdpError::Protocol { code: e.code, message: e.message }),
                None => match msg.result {
                    Some(v) => Ok(v),
                    None => Ok("null".to_owned()),
                },
            };
            Route::Reply { id, outcome }
        },
        None => match msg.method {
            Some(method) => Route::Event { session_id: msg.session_id, method, params: msg.params },
            None => Route::Ignore,
        },
    }
}

} // verus!
