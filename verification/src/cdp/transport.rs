//! Message framing for CDP over a `--remote-debugging-pipe` pair: each
//! message is its UTF-8 text followed by one NUL byte. Reading buffers the
//! bytes received so far and splits complete messages off the front,
//! skipping empty ones; a partial message stays buffered for the next read.

use vstd::prelude::*;
use vstd::utf8::{decode_utf8, encode_utf8, encode_utf8_decode_utf8, valid_utf8};

verus! {

/// What `String::from_utf8_lossy` makes of `bytes`: their text, with each
/// invalid sequence replaced by U+FFFD.
pub uninterp spec fn utf8_lossy(bytes: Seq<u8>) -> Seq<char>;

/// `String::from_utf8_lossy(bytes).into_owned()`. Valid UTF-8 decodes to
/// its own text, as the documentation states; what invalid bytes become is
/// named, not spelled out.
#[verifier::external_body]
fn lossy_text(bytes: &[u8]) -> (r: String)
    ensures
        r@ == utf8_lossy(bytes@),
        valid_utf8(bytes@) ==> r@ == decode_utf8(bytes@),
{
    String::from_utf8_lossy(bytes).into_owned()
}

/// The index of the first NUL byte in `buf`, if any.
pub open spec fn first_nul(buf: Seq<u8>) -> Option<int>
    decreases buf.len(),
{
    if buf.len() == 0 {
        None
    } else if buf[0] == 0 {
        Some(0)
    } else {
        match first_nul(buf.skip(1)) {
            Some(i) => Some(i + 1),
            None => None,
        }
    }
}

/// The next non-empty complete message in `buf` (its bytes) and what
/// stays buffered after it; with none, `None` and the buffer without the
/// empty messages at its front.
pub open spec fn spec_next_frame(buf: Seq<u8>) -> (Option<Seq<u8>>, Seq<u8>)
    decreases buf.len(),
{
    match first_nul(buf) {
        None => (None, buf),
        Some(p) => if p == 0 {
            spec_next_frame(buf.skip(1))
        } else {
            (Some(buf.take(p)), buf.skip(p + 1))
        },
    }
}

proof fn lemma_first_nul(buf: Seq<u8>)
    ensures
        match first_nul(buf) {
            Some(p) => 0 <= p < buf.len() && buf[p] == 0 && forall|j: int| 0 <= j < p ==> buf[j] != 0,
            None => forall|j: int| 0 <= j < buf.len() ==> buf[j] != 0,
        },
    decreases buf.len(),
{
    if buf.len() > 0 && buf[0] != 0 {
        lemma_first_nul(buf.skip(1));
        assert forall|j: int| 1 <= j < buf.len() implies buf[j] == buf.skip(1)[j - 1] by {}
    }
}

proof fn lemma_first_nul_at(buf: Seq<u8>, p: int)
    requires
        0 <= p < buf.len(),
        buf[p] == 0,
        forall|j: int| 0 <= j < p ==> buf[j] != 0,
    ensures
        first_nul(buf) == Some(p),
    decreases buf.len(),
{
    lemma_first_nul(buf);
    match first_nul(buf) {
        Some(q) => {
            assert(q == p) by {
                if q < p {
                    assert(buf[q] != 0);
                } else if q > p {
                    assert(buf[p] != 0);
                }
            }
        },
        None => {
            assert(buf[p] != 0);
        },
    }
}

/// The bytes written for one message: its UTF-8 text, then a NUL.
pub fn frame_message(msg: &str) -> (r: Vec<u8>)
    ensures
        r@ == encode_utf8(msg@).push(0u8),
{
    let bytes = msg.as_bytes();
    let mut r: Vec<u8> = Vec::new();
    let mut i: usize = 0;
    while i < bytes.len()
        invariant
            i <= bytes@.len(),
            bytes@ == encode_utf8(msg@),
            r@ == bytes@.take(i as int),
        decreases bytes.len() - i,
    {
        r.push(bytes[i]);
        assert(r@ =~= bytes@.take(i + 1));
        i += 1;
    }
    assert(bytes@.take(bytes@.len() as int) =~= bytes@);
    r.push(0u8);
    r
}

/// The bytes read from the pipe that do not yet form a message.
pub struct FrameBuffer {
    buf: Vec<u8>,
}

impl FrameBuffer {
    /// The buffered bytes.
    pub closed spec fn buffered(&self) -> Seq<u8> {
        self.buf@
    }

    /// Nothing buffered.
    pub fn new() -> (r: Self)
        ensures
            r.buffered() == Seq::<u8>::empty(),
    {
        FrameBuffer { buf: Vec::new() }
    }

    /// Appends bytes just read.
    pub fn extend(&mut self, chunk: &[u8])
        ensures
            final(self).buffered() == old(self).buffered() + chunk@,
    {
        let mut i: usize = 0;
        while i < chunk.len()
            invariant
                i <= chunk@.len(),
                self.buf@ == old(self).buffered() + chunk@.take(i as int),
            decreases chunk.len() - i,
        {
            self.buf.push(chunk[i]);
            assert(self.buf@ =~= old(self).buffered() + chunk@.take(i + 1));
            i += 1;
        }
        assert(chunk@.take(chunk@.len() as int) =~= chunk@);
    }

    fn nul_position(&self) -> (r: Option<usize>)
        ensures
            match r {
                Some(p) => first_nul(self.buf@) == Some(p as int) && p < self.buf@.len(),
                None => first_nul(self.buf@) is None,
            },
    {
        proof {
            lemma_first_nul(self.buf@);
        }
        let mut i: usize = 0;
        while i < self.buf.len()
            invariant
                i <= self.buf@.len(),
                forall|j: int| 0 <= j < i ==> self.buf@[j] != 0,
            decreases self.buf.len() - i,
        {
            if self.buf[i] == 0 {
                proof {
                    lemma_first_nul_at(self.buf@, i as int);
                }
                return Some(i);
            }
            i += 1;
        }
        None
    }

    fn drain_through(&mut self, p: usize) -> (taken: Vec<u8>)
        requires
            p < old(self).buffered().len(),
        ensures
            taken@ == old(self).buffered().take(p as int),
            final(self).buffered() == old(self).buffered().skip(p + 1),
    {
        let mut taken: Vec<u8> = Vec::new();
        let mut rest: Vec<u8> = Vec::new();
        let mut i: usize = 0;
        while i < self.buf.len()
            invariant
                p < self.buf@.len(),
                self.buf@ == old(self).buffered(),
                i <= self.buf@.len(),
                i <= p ==> taken@ == self.buf@.take(i as int) && rest@.len() == 0,
                i > p ==> taken@ == self.buf@.take(p as int) && rest@ == self.buf@.subrange(p + 1, i as int),
            decreases self.buf.len() - i,
        {
            if i < p {
                taken.push(self.buf[i]);
                assert(taken@ =~= self.buf@.take(i + 1));
            } else if i > p {
                rest.push(self.buf[i]);
                assert(rest@ =~= self.buf@.subrange(p + 1, i + 1));
            } else {
                assert(rest@ =~= self.buf@.subrange(p + 1, i + 1));
            }
            i += 1;
        }
        assert(rest@ =~= old(self).buffered().skip(p + 1));
        self.buf = rest;
        taken
    }

    /// Splits the next non-empty complete message off the front, skipping
    /// empty ones, and returns its text; `None` when no complete non-empty
    /// message is buffered (then more must be read).
    pub fn next_frame(&mut self) -> (r: Option<String>)
        ensures
            final(self).buffered() == spec_next_frame(old(self).buffered()).1,
            match spec_next_frame(old(self).buffered()).0 {
                Some(bytes) => r matches Some(t) && t@ == utf8_lossy(bytes)
                    && (valid_utf8(bytes) ==> t@ == decode_utf8(bytes)),
                None => r is None,
            },
        decreases old(self).buffered().len(),
    {
        match self.nul_position() {
            None => None,
            Some(p) => {
                let frame = self.drain_through(p);
                if p == 0 {
                    self.next_frame()
                } else {
                    Some(lossy_text(frame.as_slice()))
                }
            },
        }
    }
}

/// A message sent as `frame_message` writes it, with more bytes behind it,
/// is read back whole as the next message, and the bytes behind it stay
/// buffered: the pipe round-trips every non-empty message free of NUL
/// bytes.
pub proof fn framed_message_reads_back(msg: Seq<char>, rest: Seq<u8>)
    requires
        encode_utf8(msg).len() > 0,
        forall|i: int| 0 <= i < encode_utf8(msg).len() ==> encode_utf8(msg)[i] != 0,
    ensures
        spec_next_frame(encode_utf8(msg).push(0u8) + rest) == (Some(encode_utf8(msg)), rest),
        valid_utf8(encode_utf8(msg)),
        decode_utf8(encode_utf8(msg)) == msg,
{
    let bytes = encode_utf8(msg);
    let buf = bytes.push(0u8) + rest;
    let n = bytes.len() as int;
    assert(buf[n] == 0);
    assert forall|j: int| 0 <= j < n implies buf[j] != 0 by {
        assert(buf[j] == bytes[j]);
    }
    lemma_first_nul_at(buf, n);
    assert(buf.take(n) =~= bytes);
    assert(buf.skip(n + 1) =~= rest);
    encode_utf8_decode_utf8(msg);
    vstd::utf8::encode_utf8_valid_utf8(msg);
}

} // verus!
