//! Merging the output of many workers into one console.
//!
//! Each worker has two streams. The bytes of a stream arrive in pieces of any
//! size; they are cut into lines, each line is read as text, and each text is
//! handed back with the worker's number in front of it. What is handed back
//! for one stream depends on the bytes of that stream alone, so the lines of
//! one stream keep their order whatever the other streams do.

use vstd::prelude::*;
use vstd::utf8::*;
use vstd::string::*;
use crate::text::{decimal, push_char, push_decimal};

verus! {

/// The byte that ends a line.
pub const LINE_FEED: u8 = 10;

/// The byte that may stand before the one that ends a line.
pub const CARRIAGE_RETURN: u8 = 13;

/// The bytes of a line without its end: one carriage return at the end of
/// `raw` is dropped.
pub open spec fn line_body(raw: Seq<u8>) -> Seq<u8> {
    if raw.len() > 0 && raw.last() == CARRIAGE_RETURN {
        raw.drop_last()
    } else {
        raw
    }
}

/// What has become of a stream: the lines read from it so far, the bytes that
/// follow the last complete line, and whether it is still being read.
pub struct Framing {
    pub lines: Seq<Seq<char>>,
    pub pending: Seq<u8>,
    pub open: bool,
}

impl Framing {
    /// A stream that is being read and has given nothing yet.
    pub open spec fn start() -> Framing {
        Framing { lines: Seq::empty(), pending: Seq::empty(), open: true }
    }

    /// The stream after one more byte. A line feed completes a line: the
    /// pending bytes, without a carriage return at their end, are read as
    /// UTF-8. Where they are no UTF-8 the stream is given up. Any other byte
    /// is kept. A stream that is no longer read takes nothing.
    pub open spec fn absorb(self, byte: u8) -> Framing {
        if !self.open {
            self
        } else if byte != LINE_FEED {
            Framing { pending: self.pending.push(byte), ..self }
        } else if valid_utf8(line_body(self.pending)) {
            Framing {
                lines: self.lines.push(decode_utf8(line_body(self.pending))),
                pending: Seq::empty(),
                open: true,
            }
        } else {
            Framing { lines: self.lines, pending: Seq::empty(), open: false }
        }
    }

    /// The stream after `bytes`, taken one by one.
    pub open spec fn absorb_all(self, bytes: Seq<u8>) -> Framing
        decreases bytes.len(),
    {
        if bytes.len() == 0 {
            self
        } else {
            self.absorb_all(bytes.drop_last()).absorb(bytes.last())
        }
    }

    /// The stream after its end. Bytes that no line feed followed are one
    /// last line, carriage return included, where they are UTF-8.
    pub open spec fn end(self) -> Framing {
        if self.open && self.pending.len() > 0 && valid_utf8(self.pending) {
            Framing {
                lines: self.lines.push(decode_utf8(self.pending)),
                pending: Seq::empty(),
                open: false,
            }
        } else {
            Framing { lines: self.lines, pending: Seq::empty(), open: false }
        }
    }

    /// The same stream with other lines behind it.
    pub open spec fn with_lines(self, lines: Seq<Seq<char>>) -> Framing {
        Framing { lines, ..self }
    }
}

/// `std::string::String::from_utf8`: the text that the bytes encode, where
/// they are well-formed UTF-8, and nothing where they are not.
#[verifier::external_body]
fn text_of(bytes: Vec<u8>) -> (r: Option<String>)
    ensures
        r is Some <==> valid_utf8(bytes@),
        r matches Some(s) ==> s@ == decode_utf8(bytes@),
{
    String::from_utf8(bytes).ok()
}

/// What one call took out of a stream.
pub struct Drained {
    /// The lines that were completed, in the order of the bytes.
    pub lines: Vec<String>,
    /// Whether the stream was given up in this call.
    pub broken: bool,
}

/// The reader's side of one stream: the bytes after the last complete line.
pub struct LineBuffer {
    pending: Vec<u8>,
    open: bool,
}

impl LineBuffer {
    /// The bytes that wait for the end of their line.
    pub closed spec fn pending(&self) -> Seq<u8> {
        self.pending@
    }

    /// Whether the stream is still being read.
    pub closed spec fn reading(&self) -> bool {
        self.open
    }

    /// This stream with no line read from it yet.
    pub open spec fn resume(&self) -> Framing {
        Framing { lines: Seq::empty(), pending: self.pending(), open: self.reading() }
    }

    /// A stream that is being read and has given nothing yet.
    pub fn new() -> (r: LineBuffer)
        ensures
            r.resume() == Framing::start(),
    {
        LineBuffer { pending: Vec::new(), open: true }
    }

    /// Whether the stream is still being read.
    pub fn is_open(&self) -> (r: bool)
        ensures
            r == self.reading(),
    {
        self.open
    }

    /// Takes the next bytes of the stream and hands back the lines that they
    /// complete.
    pub fn feed(&mut self, chunk: &[u8]) -> (r: Drained)
        ensures
            r.lines.deep_view() == old(self).resume().absorb_all(chunk@).lines,
            final(self).pending() == old(self).resume().absorb_all(chunk@).pending,
            final(self).reading() == old(self).resume().absorb_all(chunk@).open,
            r.broken == (old(self).reading() && !final(self).reading()),
    {
        let mut lines: Vec<String> = Vec::new();
        let ghost first = self.resume();
        let was_open = self.open;
        let mut i: usize = 0;
        assert(chunk@.take(0) =~= Seq::<u8>::empty());
        assert(lines.deep_view() =~= first.lines);
        while i < chunk.len()
            invariant
                i <= chunk.len(),
                first.absorb_all(chunk@.take(i as int)) == (Framing {
                    lines: lines.deep_view(),
                    pending: self.pending@,
                    open: self.open,
                }),
            decreases chunk.len() - i,
        {
            let byte = chunk[i];
            let ghost before = first.absorb_all(chunk@.take(i as int));
            proof {
                let upto = chunk@.take(i + 1);
                assert(upto.drop_last() =~= chunk@.take(i as int));
                assert(upto.last() == byte);
            }
            if self.open {
                if byte != LINE_FEED {
                    self.pending.push(byte);
                } else {
                    let mut raw: Vec<u8> = Vec::new();
                    std::mem::swap(&mut raw, &mut self.pending);
                    let n = raw.len();
                    if n > 0 && raw[n - 1] == CARRIAGE_RETURN {
                        raw.pop();
                    }
                    assert(raw@ =~= line_body(before.pending));
                    match text_of(raw) {
                        Some(line) => {
                            let ghost earlier = lines.deep_view();
                            lines.push(line);
                            assert(lines.deep_view() =~= earlier.push(line@));
                        },
                        None => {
                            self.open = false;
                        },
                    }
                }
            }
            i += 1;
        }
        assert(chunk@.take(chunk.len() as int) =~= chunk@);
        let broken = was_open && !self.open;
        Drained { lines, broken }
    }

    /// Takes the end of the stream and hands back the line that no line feed
    /// followed, where there is one. The stream is read no further.
    pub fn close(&mut self) -> (r: Drained)
        ensures
            r.lines.deep_view() == old(self).resume().end().lines,
            final(self).pending() == Seq::<u8>::empty(),
            !final(self).reading(),
            r.broken == (old(self).reading() && old(self).pending().len() > 0 && !valid_utf8(
                old(self).pending(),
            )),
    {
        let mut lines: Vec<String> = Vec::new();
        let mut raw: Vec<u8> = Vec::new();
        std::mem::swap(&mut raw, &mut self.pending);
        let was_open = self.open;
        self.open = false;
        assert(lines.deep_view() =~= Seq::<Seq<char>>::empty());
        if !was_open || raw.len() == 0 {
            return Drained { lines, broken: false };
        }
        match text_of(raw) {
            Some(line) => {
                lines.push(line);
                assert(lines.deep_view() =~= Seq::<Seq<char>>::empty().push(line@));
                Drained { lines, broken: false }
            },
            None => Drained { lines, broken: true },
        }
    }

    /// Gives the stream up: what waits in it is dropped and nothing more is
    /// taken from it.
    pub fn stop(&mut self)
        ensures
            final(self).pending() == Seq::<u8>::empty(),
            !final(self).reading(),
    {
        self.pending = Vec::new();
        self.open = false;
    }
}

/// Reading stops for good: a stream that was closed or given up takes no
/// more bytes and gives no more lines.
pub proof fn law_closed_stream_takes_nothing(f: Framing, bytes: Seq<u8>)
    requires
        !f.open,
    ensures
        f.absorb_all(bytes) == f,
    decreases bytes.len(),
{
    if bytes.len() > 0 {
        law_closed_stream_takes_nothing(f, bytes.drop_last());
    }
}

/// The lines that bytes add to a stream do not depend on the lines before
/// them: they come behind those, and are what the same bytes give after no
/// line at all.
pub proof fn lemma_lines_come_behind(f: Framing, bytes: Seq<u8>)
    ensures
        f.absorb_all(bytes) == f.with_lines(Seq::empty()).absorb_all(bytes).with_lines(
            f.lines + f.with_lines(Seq::empty()).absorb_all(bytes).lines,
        ),
    decreases bytes.len(),
{
    let bare = f.with_lines(Seq::empty());
    if bytes.len() == 0 {
        assert(f.lines + bare.lines =~= f.lines);
    } else {
        lemma_lines_come_behind(f, bytes.drop_last());
        let before = bare.absorb_all(bytes.drop_last());
        let line = decode_utf8(line_body(before.pending));
        assert((f.lines + before.lines).push(line) =~= f.lines + before.lines.push(line));
    }
}

/// Bytes may be cut anywhere: taking `a` and then `b` leaves the stream as
/// taking both at once does.
pub proof fn lemma_absorb_in_pieces(f: Framing, a: Seq<u8>, b: Seq<u8>)
    ensures
        f.absorb_all(a + b) == f.absorb_all(a).absorb_all(b),
    decreases b.len(),
{
    if b.len() == 0 {
        assert(a + b =~= a);
    } else {
        lemma_absorb_in_pieces(f, a, b.drop_last());
        assert((a + b).drop_last() =~= a + b.drop_last());
        assert((a + b).last() == b.last());
    }
}

/// The chunks of a stream, joined in the order in which they came.
pub open spec fn all_bytes(chunks: Seq<Seq<u8>>) -> Seq<u8>
    decreases chunks.len(),
{
    if chunks.len() == 0 {
        Seq::empty()
    } else {
        all_bytes(chunks.drop_last()) + chunks.last()
    }
}

/// What a reader that holds `pending` hands back over a run of calls of
/// `feed`, one for each of `chunks`: the lines of the first call, then
/// those of the second, and so on, with the state in which the last call
/// leaves the reader.
pub open spec fn handed_back(pending: Seq<u8>, open: bool, chunks: Seq<Seq<u8>>) -> Framing
    decreases chunks.len(),
{
    if chunks.len() == 0 {
        Framing { lines: Seq::empty(), pending, open }
    } else {
        let before = handed_back(pending, open, chunks.drop_last());
        let call = before.with_lines(Seq::empty()).absorb_all(chunks.last());
        call.with_lines(before.lines + call.lines)
    }
}

/// The lines of one stream keep the order of its bytes, however the bytes
/// arrive. What a reader hands back over any run of calls, the lines of
/// each call behind those of the call before, is what one call with all the
/// bytes at once hands back, and the reader is left in the same state.
pub proof fn law_line_order(pending: Seq<u8>, open: bool, chunks: Seq<Seq<u8>>)
    ensures
        handed_back(pending, open, chunks) == (Framing {
            lines: Seq::empty(),
            pending,
            open,
        }).absorb_all(all_bytes(chunks)),
    decreases chunks.len(),
{
    let first = Framing { lines: Seq::empty(), pending, open };
    if chunks.len() > 0 {
        law_line_order(pending, open, chunks.drop_last());
        lemma_absorb_in_pieces(first, all_bytes(chunks.drop_last()), chunks.last());
        lemma_lines_come_behind(first.absorb_all(all_bytes(chunks.drop_last())), chunks.last());
    }
}

/// A line as the console shows it: the worker's number in square brackets,
/// a space, and the line.
pub open spec fn tagged(id: nat, line: Seq<char>) -> Seq<char> {
    seq!['['] + decimal(id) + seq![']', ' '] + line
}

/// Each of `lines` with the worker's number in front, in the same order.
pub open spec fn tag_all(id: nat, lines: Seq<Seq<char>>) -> Seq<Seq<char>> {
    Seq::new(lines.len(), |i: int| tagged(id, lines[i]))
}

/// Marking keeps the order: the marked lines of a run of lines followed by
/// another are the marked lines of the one followed by those of the other,
/// and each marked line stands where its line stood.
pub proof fn law_tags_keep_order(id: nat, first: Seq<Seq<char>>, second: Seq<Seq<char>>)
    ensures
        tag_all(id, first + second) == tag_all(id, first) + tag_all(id, second),
        forall|i: int|
            0 <= i < first.len() ==> (#[trigger] tag_all(id, first)[i]) == tagged(id, first[i]),
{
    assert(tag_all(id, first + second) =~= tag_all(id, first) + tag_all(id, second));
}

/// Puts the worker's number in front of a line.
pub fn tag_line(id: usize, line: &str) -> (r: String)
    ensures
        r@ == tagged(id as nat, line@),
{
    let mut out = String::new();
    push_char(&mut out, '[');
    push_decimal(&mut out, id);
    push_char(&mut out, ']');
    push_char(&mut out, ' ');
    out.append(line);
    assert(out@ =~= tagged(id as nat, line@));
    out
}

/// Puts the worker's number in front of each line.
pub fn tag_lines(id: usize, lines: &Vec<String>) -> (r: Vec<String>)
    ensures
        r.deep_view() == tag_all(id as nat, lines.deep_view()),
{
    let mut out: Vec<String> = Vec::new();
    let mut i: usize = 0;
    while i < lines.len()
        invariant
            i <= lines.len(),
            out.len() == i,
            forall|j: int| 0 <= j < i ==> out@[j]@ == tagged(id as nat, lines@[j]@),
        decreases lines.len() - i,
    {
        let line = tag_line(id, lines[i].as_str());
        out.push(line);
        i += 1;
    }
    assert(out.deep_view() =~= tag_all(id as nat, lines.deep_view()));
    out
}

/// One of the two streams of a worker, and of the console.
#[derive(Clone, Copy, Debug, PartialEq, Eq, Structural)]
pub enum Channel {
    Stdout,
    Stderr,
}

impl Channel {
    /// The other stream of the same worker.
    pub open spec fn spec_other(self) -> Channel {
        match self {
            Channel::Stdout => Channel::Stderr,
            Channel::Stderr => Channel::Stdout,
        }
    }

    /// The other stream of the same worker.
    #[verifier::when_used_as_spec(spec_other)]
    pub fn other(self) -> (r: Channel)
        ensures
            r == self.spec_other(),
    {
        match self {
            Channel::Stdout => Channel::Stderr,
            Channel::Stderr => Channel::Stdout,
        }
    }
}

/// Lines for the console, all for the same stream of it.
pub struct Forwarded {
    /// The stream of the console that the lines go to: the one that they
    /// came from at the worker.
    pub channel: Channel,
    /// The lines, each with its worker's number in front, in the order in
    /// which the worker wrote them.
    pub lines: Vec<String>,
    /// Whether reading this worker's output was given up in this call.
    pub broken: bool,
}

/// The two streams of one worker.
pub struct WorkerStreams {
    pub out: LineBuffer,
    pub err: LineBuffer,
}

impl WorkerStreams {
    /// The reader of one of the two streams.
    pub open spec fn of(&self, channel: Channel) -> LineBuffer {
        match channel {
            Channel::Stdout => self.out,
            Channel::Stderr => self.err,
        }
    }
}

/// The readers of all the streams of a pool, two for each worker.
pub struct Multiplexer {
    workers: Vec<WorkerStreams>,
}

impl Multiplexer {
    /// The number of workers.
    pub closed spec fn jobs(&self) -> nat {
        self.workers@.len()
    }

    /// The reader of one stream of worker `id`.
    pub closed spec fn stream(&self, id: int, channel: Channel) -> LineBuffer {
        self.workers@[id].of(channel)
    }

    /// Whether every stream of every worker has been read to its end or
    /// given up.
    pub open spec fn all_closed(&self) -> bool {
        forall|id: int, channel: Channel|
            0 <= id < self.jobs() ==> !(#[trigger] self.stream(id, channel)).reading()
    }

    /// The readers for `jobs` workers, none of which has written yet.
    pub fn new(jobs: usize) -> (r: Multiplexer)
        ensures
            r.jobs() == jobs,
            forall|id: int, channel: Channel|
                0 <= id < jobs ==> (#[trigger] r.stream(id, channel)).resume() == Framing::start(),
    {
        let mut workers: Vec<WorkerStreams> = Vec::new();
        let mut i: usize = 0;
        while i < jobs
            invariant
                i <= jobs,
                workers.len() == i,
                forall|id: int, channel: Channel|
                    0 <= id < i ==> (#[trigger] workers@[id].of(channel)).resume()
                        == Framing::start(),
            decreases jobs - i,
        {
            workers.push(WorkerStreams { out: LineBuffer::new(), err: LineBuffer::new() });
            i += 1;
        }
        Multiplexer { workers }
    }

    /// Takes bytes that worker `id` wrote to one of its streams, and hands
    /// back the lines that they complete, ready for the console. Where a
    /// line is no text, reading this worker's output is given up: both of its
    /// streams are closed. The streams of the other workers are not touched.
    /// For a number that no worker has, nothing happens.
    pub fn feed(&mut self, id: usize, channel: Channel, chunk: &[u8]) -> (r: Forwarded)
        ensures
            final(self).jobs() == old(self).jobs(),
            r.channel == channel,
            forall|w: int, c: Channel|
                0 <= w < old(self).jobs() && w != id ==> final(self).stream(w, c) == old(
                    self,
                ).stream(w, c),
            id >= old(self).jobs() ==> r.lines@.len() == 0 && !r.broken,
            id < old(self).jobs() ==> ({
                let after = old(self).stream(id as int, channel).resume().absorb_all(chunk@);
                &&& r.lines.deep_view() == tag_all(id as nat, after.lines)
                &&& final(self).stream(id as int, channel).pending() == after.pending
                &&& final(self).stream(id as int, channel).reading() == after.open
                &&& r.broken == (old(self).stream(id as int, channel).reading() && !after.open)
                &&& r.broken ==> !final(self).stream(id as int, channel.other()).reading()
                    && final(self).stream(id as int, channel.other()).pending() == Seq::<
                    u8,
                >::empty()
                &&& !r.broken ==> final(self).stream(id as int, channel.other()) == old(
                    self,
                ).stream(id as int, channel.other())
            }),
    {
        if id >= self.workers.len() {
            return Forwarded { channel, lines: Vec::new(), broken: false };
        }
        let drained = match channel {
            Channel::Stdout => self.workers[id].out.feed(chunk),
            Channel::Stderr => self.workers[id].err.feed(chunk),
        };
        if drained.broken {
            match channel {
                Channel::Stdout => self.workers[id].err.stop(),
                Channel::Stderr => self.workers[id].out.stop(),
            }
        }
        let lines = tag_lines(id, &drained.lines);
        Forwarded { channel, lines, broken: drained.broken }
    }

    /// Takes the end of one stream of worker `id`, and hands back the line
    /// that no line feed followed, where there is one. Where that line is no
    /// text, the worker's other stream is closed too.
    pub fn close(&mut self, id: usize, channel: Channel) -> (r: Forwarded)
        ensures
            final(self).jobs() == old(self).jobs(),
            r.channel == channel,
            forall|w: int, c: Channel|
                0 <= w < old(self).jobs() && w != id ==> final(self).stream(w, c) == old(
                    self,
                ).stream(w, c),
            id >= old(self).jobs() ==> r.lines@.len() == 0 && !r.broken,
            id < old(self).jobs() ==> ({
                let before = old(self).stream(id as int, channel);
                &&& r.lines.deep_view() == tag_all(id as nat, before.resume().end().lines)
                &&& final(self).stream(id as int, channel).pending() == Seq::<u8>::empty()
                &&& !final(self).stream(id as int, channel).reading()
                &&& r.broken == (before.reading() && before.pending().len() > 0 && !valid_utf8(
                    before.pending(),
                ))
                &&& r.broken ==> !final(self).stream(id as int, channel.other()).reading()
                    && final(self).stream(id as int, channel.other()).pending() == Seq::<
                    u8,
                >::empty()
                &&& !r.broken ==> final(self).stream(id as int, channel.other()) == old(
                    self,
                ).stream(id as int, channel.other())
            }),
    {
        if id >= self.workers.len() {
            return Forwarded { channel, lines: Vec::new(), broken: false };
        }
        let drained = match channel {
            Channel::Stdout => self.workers[id].out.close(),
            Channel::Stderr => self.workers[id].err.close(),
        };
        if drained.broken {
            match channel {
                Channel::Stdout => self.workers[id].err.stop(),
                Channel::Stderr => self.workers[id].out.stop(),
            }
        }
        let lines = tag_lines(id, &drained.lines);
        Forwarded { channel, lines, broken: drained.broken }
    }

    /// Gives up reading the output of worker `id`, after the driver failed
    /// to read from it: both of its streams are closed and what waited in
    /// them is dropped. The other workers are not touched.
    pub fn fail(&mut self, id: usize)
        ensures
            final(self).jobs() == old(self).jobs(),
            forall|w: int, c: Channel|
                0 <= w < old(self).jobs() && w != id ==> final(self).stream(w, c) == old(
                    self,
                ).stream(w, c),
            forall|c: Channel|
                id < old(self).jobs() ==> !(#[trigger] final(self).stream(id as int, c)).reading()
                    && final(self).stream(id as int, c).pending() == Seq::<u8>::empty(),
    {
        if id < self.workers.len() {
            self.workers[id].out.stop();
            self.workers[id].err.stop();
        }
    }

    /// Whether nothing is left to read: every stream has ended or was given
    /// up.
    pub fn idle(&self) -> (r: bool)
        ensures
            r == self.all_closed(),
    {
        let mut i: usize = 0;
        while i < self.workers.len()
            invariant
                i <= self.workers.len(),
                forall|id: int, channel: Channel|
                    0 <= id < i ==> !(#[trigger] self.stream(id, channel)).reading(),
            decreases self.workers.len() - i,
        {
            if self.workers[i].out.is_open() || self.workers[i].err.is_open() {
                assert(self.stream(i as int, Channel::Stdout).reading() || self.stream(
                    i as int,
                    Channel::Stderr,
                ).reading());
                return false;
            }
            assert forall|channel: Channel| !(#[trigger] self.stream(i as int, channel)).reading() by {
                match channel {
                    Channel::Stdout => {},
                    Channel::Stderr => {},
                }
            }
            i += 1;
        }
        true
    }
}

} // verus!
