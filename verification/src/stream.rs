//! Decoder of the server-sent-event stream of a streamed intelligence answer.
//!
//! The decoder is fed the response body chunk by chunk and yields one event
//! per blank-line-terminated block of `event:` / `data:` lines. It never
//! reads the network: whoever holds the response pushes chunks in, and
//! asks for the next event.

use vstd::prelude::*;
use crate::json::{JsonV, Members, members_view};
use crate::text::{lossy_utf8, string_into_bytes, utf8_lossy};
use vstd::utf8::encode_utf8;

verus! {

// ---------------------------------------------------------------------------
// The model.

/// The mathematical state of the decoder: unread bytes, whether the input has
/// ended, the pending event name and data lines.
pub struct StreamV {
    pub buffer: Seq<u8>,
    pub done: bool,
    pub event: Seq<char>,
    pub data: Seq<Seq<char>>,
}

/// An event as the stream frames it: its `event:` name and its `data:` lines
/// joined with `\n`.
pub struct RawEventV {
    pub event: Seq<char>,
    pub data: Seq<char>,
}

/// What asking for the next event yields.
pub enum StepV {
    Event(RawEventV),
    NeedInput,
    End,
}

/// Index of the first `\n` in `b`, or -1.
pub open spec fn first_newline(b: Seq<u8>) -> int
    decreases b.len(),
{
    if b.len() == 0 {
        -1
    } else {
        let i = first_newline(b.drop_last());
        if i >= 0 {
            i
        } else if b.last() == 10 {
            b.len() - 1
        } else {
            -1
        }
    }
}

/// Index of the first `:` in `b`, or -1.
pub open spec fn first_colon(b: Seq<u8>) -> int
    decreases b.len(),
{
    if b.len() == 0 {
        -1
    } else {
        let i = first_colon(b.drop_last());
        if i >= 0 {
            i
        } else if b.last() == 58 {
            b.len() - 1
        } else {
            -1
        }
    }
}

/// A line without its `\n`, then without one `\r` before it.
pub open spec fn strip_line_end(line: Seq<u8>) -> Seq<u8> {
    let l = if line.len() > 0 && line.last() == 10 {
        line.drop_last()
    } else {
        line
    };
    if l.len() > 0 && l.last() == 13 {
        l.drop_last()
    } else {
        l
    }
}

pub open spec fn event_field() -> Seq<u8> {
    seq![101u8, 118u8, 101u8, 110u8, 116u8]
}

pub open spec fn data_field() -> Seq<u8> {
    seq![100u8, 97u8, 116u8, 97u8]
}

/// The pending state after one non-blank line: comments (`:` first) and
/// lines without a `:` are ignored; otherwise the field name is before the
/// first `:`, and the value after it, less one leading space. `event` sets
/// the pending name, `data` adds a data line, other fields are ignored.
pub open spec fn consume_line(s: StreamV, line: Seq<u8>) -> StreamV {
    if line.len() == 0 || line[0] == 58 {
        s
    } else {
        let c = first_colon(line);
        if c < 0 {
            s
        } else {
            let field = line.subrange(0, c);
            let rest = line.subrange(c + 1, line.len() as int);
            let value = if rest.len() > 0 && rest[0] == 32 {
                rest.drop_first()
            } else {
                rest
            };
            if field == event_field() {
                StreamV { event: lossy_utf8(value), ..s }
            } else if field == data_field() {
                StreamV { data: s.data.push(lossy_utf8(value)), ..s }
            } else {
                s
            }
        }
    }
}

/// Lines joined with `\n`.
pub open spec fn join_lines(s: Seq<Seq<char>>) -> Seq<char>
    decreases s.len(),
{
    if s.len() == 0 {
        seq![]
    } else if s.len() == 1 {
        s[0]
    } else {
        join_lines(s.drop_last()) + seq!['\n'] + s.last()
    }
}

/// The event the pending lines make.
pub open spec fn flushed(s: StreamV) -> RawEventV {
    RawEventV { event: s.event, data: join_lines(s.data) }
}

/// The state with no pending event.
pub open spec fn cleared(s: StreamV) -> StreamV {
    StreamV { event: seq![], data: seq![], ..s }
}

/// The next step of the decoder and its state after it: complete lines are
/// read one at a time; a blank line ends an event when data lines are
/// pending (and otherwise forgets the pending name); when no complete line
/// is left, an ended input flushes any pending data and then ends, and an
/// open input asks for more bytes.
pub open spec fn poll(s: StreamV) -> (StreamV, StepV)
    decreases s.buffer.len(),
{
    let i = first_newline(s.buffer);
    if 0 <= i < s.buffer.len() {
        let line = strip_line_end(s.buffer.subrange(0, i + 1));
        let s2 = StreamV { buffer: s.buffer.subrange(i + 1, s.buffer.len() as int), ..s };
        if line.len() == 0 {
            if s.data.len() > 0 {
                (cleared(s2), StepV::Event(flushed(s)))
            } else {
                poll(StreamV { event: seq![], ..s2 })
            }
        } else {
            poll(consume_line(s2, line))
        }
    } else if s.done {
        if s.data.len() > 0 {
            (cleared(s), StepV::Event(flushed(s)))
        } else {
            (s, StepV::End)
        }
    } else {
        (s, StepV::NeedInput)
    }
}

/// The state after the input ends: whatever bytes are left form a last line.
pub open spec fn ended(s: StreamV) -> StreamV {
    if s.buffer.len() > 0 {
        consume_line(StreamV { buffer: seq![], done: true, ..s }, s.buffer)
    } else {
        StreamV { done: true, ..s }
    }
}

// ---------------------------------------------------------------------------
// The decoder.

/// An event as the stream frames it.
#[derive(Debug)]
pub struct RawEvent {
    /// The SSE `event:` name, empty when none was given.
    pub event: String,
    /// The `data:` lines joined with `\n`.
    pub data: String,
}

/// What asking for the next event yields.
#[derive(Debug)]
pub enum StreamStep {
    /// A complete event.
    Event(RawEvent),
    /// More input is needed before anything can be said.
    NeedInput,
    /// The input has ended and every event has been yielded.
    End,
}

pub open spec fn step_view(s: StreamStep) -> StepV {
    match s {
        StreamStep::Event(e) => StepV::Event(RawEventV { event: e.event@, data: e.data@ }),
        StreamStep::NeedInput => StepV::NeedInput,
        StreamStep::End => StepV::End,
    }
}

/// Incremental decoder of an intelligence answer stream.
#[derive(Debug)]
pub struct AskStream {
    buffer: Vec<u8>,
    done: bool,
    pending_event: String,
    pending_data: Vec<String>,
}

pub open spec fn strings_seq(v: Seq<String>) -> Seq<Seq<char>> {
    Seq::new(v.len(), |i: int| v[i]@)
}

impl View for AskStream {
    type V = StreamV;

    closed spec fn view(&self) -> StreamV {
        StreamV {
            buffer: self.buffer@,
            done: self.done,
            event: self.pending_event@,
            data: strings_seq(self.pending_data@),
        }
    }
}

pub proof fn lemma_first_newline(b: Seq<u8>)
    ensures
        -1 <= first_newline(b) < b.len(),
        first_newline(b) == -1 <==> forall|j: int| 0 <= j < b.len() ==> #[trigger] b[j] != 10,
        first_newline(b) >= 0 ==> b[first_newline(b)] == 10 && forall|j: int|
            0 <= j < first_newline(b) ==> #[trigger] b[j] != 10,
    decreases b.len(),
{
    if b.len() > 0 {
        lemma_first_newline(b.drop_last());
        let p = b.drop_last();
        assert forall|j: int| 0 <= j < b.len() - 1 implies #[trigger] b[j] == p[j] by {}
    }
}

proof fn lemma_first_colon(b: Seq<u8>)
    ensures
        -1 <= first_colon(b) < b.len(),
        first_colon(b) == -1 <==> forall|j: int| 0 <= j < b.len() ==> #[trigger] b[j] != 58,
        first_colon(b) >= 0 ==> b[first_colon(b)] == 58 && forall|j: int|
            0 <= j < first_colon(b) ==> #[trigger] b[j] != 58,
    decreases b.len(),
{
    if b.len() > 0 {
        lemma_first_colon(b.drop_last());
        let p = b.drop_last();
        assert forall|j: int| 0 <= j < b.len() - 1 implies #[trigger] b[j] == p[j] by {}
    }
}

/// Position of the first byte `x` in `b[from..]`, relative to `from`.
fn find_byte(b: &Vec<u8>, x: u8) -> (r: Option<usize>)
    ensures
        match r {
            Some(i) => i < b@.len() && b@[i as int] == x && forall|j: int|
                0 <= j < i ==> #[trigger] b@[j] != x,
            None => forall|j: int| 0 <= j < b@.len() ==> #[trigger] b@[j] != x,
        },
{
    let n = b.len();
    let mut i: usize = 0;
    while i < n
        invariant
            0 <= i <= n,
            n == b@.len(),
            forall|j: int| 0 <= j < i ==> #[trigger] b@[j] != x,
        decreases n - i,
    {
        if b[i] == x {
            return Some(i);
        }
        i = i + 1;
    }
    None
}

/// `b[from..to]` as a new vector.
fn copy_range(b: &Vec<u8>, from: usize, to: usize) -> (r: Vec<u8>)
    requires
        from <= to <= b@.len(),
    ensures
        r@ == b@.subrange(from as int, to as int),
{
    let mut out: Vec<u8> = Vec::new();
    let mut k: usize = from;
    while k < to
        invariant
            from <= k <= to <= b@.len(),
            out@ == b@.subrange(from as int, k as int),
        decreases to - k,
    {
        out.push(b[k]);
        k = k + 1;
        assert(out@ =~= b@.subrange(from as int, k as int));
    }
    out
}

fn bytes_eq(a: &Vec<u8>, lit: &[u8]) -> (r: bool)
    ensures
        r == (a@ == lit@),
{
    if a.len() != lit.len() {
        return false;
    }
    let n = a.len();
    let mut i: usize = 0;
    while i < n
        invariant
            0 <= i <= n,
            n == a@.len(),
            n == lit@.len(),
            forall|j: int| 0 <= j < i ==> #[trigger] a@[j] == lit@[j],
        decreases n - i,
    {
        if a[i] != lit[i] {
            return false;
        }
        i = i + 1;
    }
    assert(a@ =~= lit@);
    true
}

fn join_data(v: &Vec<String>) -> (r: String)
    ensures
        r@ == join_lines(strings_seq(v@)),
{
    let mut s = String::new();
    let n = v.len();
    let mut i: usize = 0;
    while i < n
        invariant
            0 <= i <= n,
            n == v@.len(),
            s@ == join_lines(strings_seq(v@.subrange(0, i as int))),
        decreases n - i,
    {
        proof {
            let p = strings_seq(v@.subrange(0, i as int + 1));
            assert(p.drop_last() =~= strings_seq(v@.subrange(0, i as int)));
            assert(p.last() == v@[i as int]@);
            reveal_strlit("\n");
        }
        if i > 0 {
            s.append("\n");
        }
        s.append(v[i].as_str());
        i = i + 1;
    }
    assert(v@.subrange(0, n as int) =~= v@);
    s
}

impl AskStream {
    /// A decoder that has read nothing.
    pub fn new() -> (r: Self)
        ensures
            r@ == (StreamV { buffer: seq![], done: false, event: seq![], data: seq![] }),
    {
        let r = AskStream {
            buffer: Vec::new(),
            done: false,
            pending_event: String::new(),
            pending_data: Vec::new(),
        };
        assert(strings_seq(r.pending_data@) =~= Seq::<Seq<char>>::empty());
        r
    }

    /// Feeds the next chunk of the response body.
    pub fn push_chunk(&mut self, chunk: &[u8])
        ensures
            final(self)@ == (StreamV { buffer: old(self)@.buffer + chunk@, ..old(self)@ }),
    {
        let n = chunk.len();
        let mut i: usize = 0;
        let ghost b0 = self.buffer@;
        while i < n
            invariant
                0 <= i <= n,
                n == chunk@.len(),
                self.buffer@ == b0 + chunk@.subrange(0, i as int),
                self.done == old(self).done,
                self.pending_event == old(self).pending_event,
                self.pending_data == old(self).pending_data,
            decreases n - i,
        {
            self.buffer.push(chunk[i]);
            i = i + 1;
            assert(self.buffer@ =~= b0 + chunk@.subrange(0, i as int));
        }
        assert(chunk@.subrange(0, n as int) =~= chunk@);
    }

    fn consume(&mut self, line: &Vec<u8>)
        ensures
            final(self)@ == consume_line(old(self)@, line@),
    {
        if line.len() == 0 || line[0] == 58u8 {
            return;
        }
        proof {
            lemma_first_colon(line@);
        }
        match find_byte(line, 58u8) {
            None => {},
            Some(c) => {
                assert(first_colon(line@) == c);
                let field = copy_range(line, 0, c);
                let start = if c + 1 < line.len() && line[c + 1] == 32u8 {
                    c + 2
                } else {
                    c + 1
                };
                let value = copy_range(line, start, line.len());
                proof {
                    let rest = line@.subrange(c + 1, line@.len() as int);
                    if rest.len() > 0 && rest[0] == 32 {
                        assert(rest.drop_first() =~= value@);
                    } else {
                        assert(rest =~= value@);
                    }
                }
                if bytes_eq(&field, &[101u8, 118u8, 101u8, 110u8, 116u8]) {
                    self.pending_event = utf8_lossy(value.as_slice());
                } else if bytes_eq(&field, &[100u8, 97u8, 116u8, 97u8]) {
                    let ghost before = self.pending_data@;
                    self.pending_data.push(utf8_lossy(value.as_slice()));
                    assert(strings_seq(self.pending_data@) =~= strings_seq(before).push(
                        lossy_utf8(value@),
                    ));
                }
            },
        }
    }

    fn flush(&mut self) -> (r: RawEvent)
        ensures
            final(self)@ == cleared(old(self)@),
            (RawEventV { event: r.event@, data: r.data@ }) == flushed(old(self)@),
    {
        let data = join_data(&self.pending_data);
        let event = self.pending_event.clone();
        self.pending_event = String::new();
        self.pending_data = Vec::new();
        assert(strings_seq(self.pending_data@) =~= Seq::<Seq<char>>::empty());
        RawEvent { event, data }
    }

    /// The next step: an event, a request for more input, or the end.
    pub fn poll_event(&mut self) -> (r: StreamStep)
        ensures
            (final(self)@, step_view(r)) == poll(old(self)@),
    {
        loop
            invariant
                poll(self@) == poll(old(self)@),
            decreases self@.buffer.len(),
        {
            proof {
                lemma_first_newline(self.buffer@);
            }
            match find_byte(&self.buffer, 10u8) {
                Some(i) => {
                    assert(first_newline(self.buffer@) == i);
                    let n = self.buffer.len();
                    let mut end = i;
                    if end > 0 && self.buffer[end - 1] == 13u8 {
                        end = end - 1;
                    }
                    let line = copy_range(&self.buffer, 0, end);
                    let rest = copy_range(&self.buffer, i + 1, n);
                    proof {
                        let raw = self.buffer@.subrange(0, i as int + 1);
                        assert(raw.drop_last() =~= self.buffer@.subrange(0, i as int));
                        let l = raw.drop_last();
                        if l.len() > 0 && l.last() == 13 {
                            assert(l.drop_last() =~= line@);
                        } else {
                            assert(l =~= line@);
                        }
                        assert(strip_line_end(raw) == line@);
                    }
                    let ghost before = self@;
                    self.buffer = rest;
                    if line.len() == 0 {
                        if self.pending_data.len() > 0 {
                            let e = self.flush();
                            return StreamStep::Event(e);
                        }
                        self.pending_event = String::new();
                    } else {
                        self.consume(&line);
                    }
                },
                None => {
                    if self.done {
                        if self.pending_data.len() > 0 {
                            let e = self.flush();
                            return StreamStep::Event(e);
                        }
                        return StreamStep::End;
                    }
                    return StreamStep::NeedInput;
                },
            }
        }
    }

    /// Marks the end of the input; any bytes left form a last line.
    pub fn end_of_input(&mut self)
        ensures
            final(self)@ == ended(old(self)@),
    {
        self.done = true;
        if self.buffer.len() > 0 {
            let mut line: Vec<u8> = Vec::new();
            std::mem::swap(&mut line, &mut self.buffer);
            self.consume(&line);
        }
    }
}

// ---------------------------------------------------------------------------
// Event payloads.

/// One decoded event of an intelligence stream.
#[derive(Debug)]
pub struct StreamEvent {
    /// The SSE `event:` name, empty when none was given.
    pub event: String,
    /// `chunk_type` field of the JSON payload, empty when absent.
    pub chunk_type: String,
    /// `content` field of the JSON payload, empty when absent.
    pub content: String,
    /// Free-form metadata attached to the chunk.
    pub metadata: Option<Members>,
    /// The payload bytes (the data lines joined with `\n`, as UTF-8).
    pub raw: Vec<u8>,
}

/// The fields of an event's JSON payload. The payload is read into this
/// shape by the JSON deserializer; a payload that does not read as one
/// leaves every field at its default.
#[derive(Debug, Default)]
pub struct StreamPayload {
    pub chunk_type: String,
    pub content: String,
    pub metadata: Option<Members>,
}

pub open spec fn opt_members_seq(o: Option<Members>) -> Option<Seq<(Seq<char>, JsonV)>> {
    match o {
        Some(m) => Some(members_view(m)),
        None => None,
    }
}

/// The event a raw event and its payload make: the name, the payload's
/// fields (or their defaults when the payload did not read), and the
/// payload bytes.
pub open spec fn decoded(
    raw: RawEventV,
    payload: Option<StreamPayload>,
) -> (Seq<char>, Seq<char>, Seq<char>, Option<Seq<(Seq<char>, JsonV)>>, Seq<u8>) {
    match payload {
        Some(p) => (raw.event, p.chunk_type@, p.content@, opt_members_seq(p.metadata), encode_utf8(raw.data)),
        None => (raw.event, seq![], seq![], None, encode_utf8(raw.data)),
    }
}

/// Decodes an event, given its payload as read (`None` when it did not
/// read as a payload).
pub fn decode_event(raw: RawEvent, payload: Option<StreamPayload>) -> (r: StreamEvent)
    ensures
        (r.event@, r.chunk_type@, r.content@, opt_members_seq(r.metadata), r.raw@) == decoded(
            RawEventV { event: raw.event@, data: raw.data@ },
            payload,
        ),
        payload matches Some(p) ==> r.chunk_type == p.chunk_type && r.content == p.content
            && r.metadata == p.metadata,
        payload is None ==> r.chunk_type@.len() == 0 && r.content@.len() == 0
            && r.metadata is None,
{
    let raw_bytes = string_into_bytes(raw.data);
    match payload {
        Some(p) => StreamEvent {
            event: raw.event,
            chunk_type: p.chunk_type,
            content: p.content,
            metadata: p.metadata,
            raw: raw_bytes,
        },
        None => StreamEvent {
            event: raw.event,
            chunk_type: String::new(),
            content: String::new(),
            metadata: None,
            raw: raw_bytes,
        },
    }
}

} // verus!
