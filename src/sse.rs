//! Incremental parsing of a server-sent-event chat stream: bytes arrive in
//! chunks of any size, complete lines are taken out of a buffer, and the text
//! fragments of `data:` lines are gathered, up to a size cap.
use vstd::prelude::*;
use vstd::utf8::encode_utf8;
use crate::json::{get, member, parse_json, decoded_json, Json};
use crate::text::{has_prefix, starts_with, str_eq, trim, trimmed};

verus! {

/// Largest number of bytes of text a stream may yield.
pub const MAX_CONTENT_BYTES: usize = 10 * 1024 * 1024;

/// Time limit for each read of the next chunk, in seconds.
pub const READ_TIMEOUT_SECS: u64 = 30;

/// The newline byte.
pub const NEWLINE: u8 = 10;

// ---------------------------------------------------------------------------
// Line framing

/// One byte of input into the framing state: the complete lines so far and
/// the bytes after the last newline.
pub open spec fn scan_step(st: (Seq<Seq<u8>>, Seq<u8>), b: u8) -> (Seq<Seq<u8>>, Seq<u8>) {
    if b == NEWLINE {
        (st.0.push(st.1.push(b)), Seq::empty())
    } else {
        (st.0, st.1.push(b))
    }
}

/// The framing state after the bytes `bytes`, starting from `st`.
pub open spec fn scan_from(st: (Seq<Seq<u8>>, Seq<u8>), bytes: Seq<u8>) -> (Seq<Seq<u8>>, Seq<u8>)
    decreases bytes.len(),
{
    if bytes.len() == 0 {
        st
    } else {
        scan_step(scan_from(st, bytes.drop_last()), bytes.last())
    }
}

/// The complete lines of `bytes`, each with its newline.
pub open spec fn complete_lines(bytes: Seq<u8>) -> Seq<Seq<u8>> {
    scan_from((Seq::empty(), Seq::empty()), bytes).0
}

/// The bytes of `bytes` after its last newline.
pub open spec fn pending_bytes(bytes: Seq<u8>) -> Seq<u8> {
    scan_from((Seq::empty(), Seq::empty()), bytes).1
}

/// Splits the buffered bytes and a new chunk into the complete lines and the
/// bytes left for the next chunk.
pub fn take_lines(buffer: &mut Vec<u8>, chunk: &[u8]) -> (lines: Vec<Vec<u8>>)
    ensures
        ({
            let st = scan_from((Seq::empty(), old(buffer)@), chunk@);
            &&& lines@.map_values(|l: Vec<u8>| l@) == st.0
            &&& final(buffer)@ == st.1
        }),
{
    let mut lines: Vec<Vec<u8>> = Vec::new();
    let mut i: usize = 0;
    while i < chunk.len()
        invariant
            i <= chunk@.len(),
            ({
                let st = scan_from((Seq::empty(), old(buffer)@), chunk@.subrange(0, i as int));
                &&& lines@.map_values(|l: Vec<u8>| l@) == st.0
                &&& buffer@ == st.1
            }),
        decreases chunk@.len() - i,
    {
        let b = chunk[i];
        assert(chunk@.subrange(0, i + 1).drop_last() =~= chunk@.subrange(0, i as int));
        buffer.push(b);
        let ghost prev_lines = lines@;
        if b == NEWLINE {
            let mut line: Vec<u8> = Vec::new();
            std::mem::swap(&mut line, buffer);
            lines.push(line);
            assert(lines@.map_values(|l: Vec<u8>| l@) =~= prev_lines.map_values(|l: Vec<u8>| l@).push(line@));
        }
        i = i + 1;
    }
    assert(chunk@.subrange(0, i as int) =~= chunk@);
    lines
}

proof fn lemma_scan_append(st: (Seq<Seq<u8>>, Seq<u8>), a: Seq<u8>, b: Seq<u8>)
    ensures
        scan_from(st, a + b) == scan_from(scan_from(st, a), b),
    decreases b.len(),
{
    if b.len() == 0 {
        assert(a + b =~= a);
    } else {
        assert((a + b).drop_last() =~= a + b.drop_last());
        assert((a + b).last() == b.last());
        lemma_scan_append(st, a, b.drop_last());
    }
}

proof fn lemma_scan_lines_prefix(ls: Seq<Seq<u8>>, r: Seq<u8>, b: Seq<u8>)
    ensures
        scan_from((ls, r), b).0 == ls + scan_from((Seq::empty(), r), b).0,
        scan_from((ls, r), b).1 == scan_from((Seq::empty(), r), b).1,
    decreases b.len(),
{
    if b.len() == 0 {
        assert(ls + Seq::<Seq<u8>>::empty() =~= ls);
    } else {
        lemma_scan_lines_prefix(ls, r, b.drop_last());
        let p = scan_from((Seq::empty(), r), b.drop_last());
        assert((ls + p.0).push(p.1.push(b.last())) =~= ls + p.0.push(p.1.push(b.last())));
    }
}

/// Line framing does not depend on chunk boundaries: taking lines from `a`
/// and then from `b` (with what `a` left over) gives the same lines, in the
/// same order, and the same leftover bytes as taking them from `a + b` at
/// once.
pub proof fn lemma_framing_chunk_independent(buffer: Seq<u8>, a: Seq<u8>, b: Seq<u8>)
    ensures
        ({
            let first = scan_from((Seq::empty(), buffer), a);
            let second = scan_from((Seq::empty(), first.1), b);
            let whole = scan_from((Seq::empty(), buffer), a + b);
            &&& first.0 + second.0 == whole.0
            &&& second.1 == whole.1
        }),
{
    lemma_scan_append((Seq::empty(), buffer), a, b);
    let first = scan_from((Seq::empty(), buffer), a);
    lemma_scan_lines_prefix(first.0, first.1, b);
}

// ---------------------------------------------------------------------------
// Line contents

/// What `String::from_utf8_lossy` makes of a line: its characters, with each
/// invalid sequence replaced by U+FFFD.
pub uninterp spec fn lossy_utf8(b: Seq<u8>) -> Seq<char>;

/// Relies on `String::from_utf8_lossy`: the decoded text depends on the bytes
/// alone.
#[verifier::external_body]
fn lossy_text(b: &[u8]) -> (r: String)
    ensures
        r@ == lossy_utf8(b@),
{
    String::from_utf8_lossy(b).into_owned()
}

/// The value of a `data:` field line, trimmed; `None` for blank lines,
/// comments and other fields.
pub open spec fn data_field(line: Seq<u8>) -> Option<Seq<char>> {
    let t = trimmed(lossy_utf8(line));
    if t.len() == 0 || has_prefix(t, ":"@) || !has_prefix(t, "data:"@) {
        None
    } else {
        Some(trimmed(t.subrange(5, t.len() as int)))
    }
}

/// The data value that ends the stream.
pub open spec fn done_marker() -> Seq<char> {
    "[DONE]"@
}

/// The line ends the stream.
pub open spec fn is_done_line(line: Seq<u8>) -> bool {
    data_field(line) == Some(done_marker())
}

/// The text of the choice's `delta.content`, if it has one.
pub open spec fn delta_content(choice: Json) -> Option<Seq<char>> {
    match member(choice, "delta"@) {
        Some(delta) => match member(delta, "content"@) {
            Some(Json::Str(s)) => Some(s@),
            _ => None,
        },
        None => None,
    }
}

/// The UTF-8 bytes of the delta texts of `choices`, in order.
pub open spec fn choices_text(choices: Seq<Json>) -> Seq<u8>
    decreases choices.len(),
{
    if choices.len() == 0 {
        Seq::empty()
    } else {
        choices_text(choices.drop_last()) + match delta_content(choices.last()) {
            Some(s) => encode_utf8(s),
            None => Seq::<u8>::empty(),
        }
    }
}

/// The text bytes carried by one decoded event: the delta texts of its
/// `choices` array.
pub open spec fn event_text(j: Json) -> Seq<u8> {
    match member(j, "choices"@) {
        Some(Json::Array(choices)) => choices_text(choices@),
        _ => Seq::empty(),
    }
}

/// The text bytes a line contributes; malformed JSON contributes nothing.
pub open spec fn line_text(line: Seq<u8>) -> Seq<u8> {
    match data_field(line) {
        Some(d) => if d == done_marker() || d.len() == 0 {
            Seq::empty()
        } else {
            match decoded_json(d) {
                Ok(j) => event_text(j),
                Err(_) => Seq::empty(),
            }
        },
        None => Seq::empty(),
    }
}

/// The text gathered from `lines`, and whether one of them ended the stream;
/// lines after the end contribute nothing.
pub open spec fn gather(lines: Seq<Seq<u8>>) -> (Seq<u8>, bool)
    decreases lines.len(),
{
    if lines.len() == 0 {
        (Seq::empty(), false)
    } else {
        let prev = gather(lines.drop_last());
        if prev.1 {
            prev
        } else if is_done_line(lines.last()) {
            (prev.0, true)
        } else {
            (prev.0 + line_text(lines.last()), false)
        }
    }
}

/// A text cut to the size cap.
pub open spec fn capped(t: Seq<u8>) -> Seq<u8> {
    if t.len() > MAX_CONTENT_BYTES {
        t.subrange(0, MAX_CONTENT_BYTES as int)
    } else {
        t
    }
}

/// The text a stream that delivered `bytes` yields.
pub open spec fn stream_text(bytes: Seq<u8>) -> Seq<u8> {
    capped(gather(complete_lines(bytes)).0)
}

fn push_str_bytes(out: &mut Vec<u8>, s: &str)
    ensures
        final(out)@ == old(out)@ + encode_utf8(s@),
{
    let b = s.as_bytes();
    let mut i: usize = 0;
    while i < b.len()
        invariant
            i <= b@.len(),
            b@ == encode_utf8(s@),
            out@ == old(out)@ + b@.subrange(0, i as int),
        decreases b@.len() - i,
    {
        out.push(b[i]);
        assert(b@.subrange(0, i + 1) =~= b@.subrange(0, i as int).push(b@[i as int]));
        i = i + 1;
    }
    assert(b@.subrange(0, i as int) =~= b@);
}

/// Appends the delta texts of `choices` to `out`.
fn push_choices_text(out: &mut Vec<u8>, choices: &Vec<Json>)
    ensures
        final(out)@ == old(out)@ + choices_text(choices@),
{
    let mut i: usize = 0;
    while i < choices.len()
        invariant
            i <= choices@.len(),
            out@ == old(out)@ + choices_text(choices@.subrange(0, i as int)),
        decreases choices@.len() - i,
    {
        let ghost before = out@;
        assert(choices@.subrange(0, i + 1).drop_last() =~= choices@.subrange(0, i as int));
        let choice = &choices[i];
        match get(choice, "delta") {
            Some(delta) => match get(delta, "content") {
                Some(Json::Str(s)) => push_str_bytes(out, s.as_str()),
                _ => {},
            },
            None => {},
        }
        assert(out@ =~= before + match delta_content(choices@[i as int]) {
            Some(s) => encode_utf8(s),
            None => Seq::<u8>::empty(),
        });
        i = i + 1;
    }
    assert(choices@.subrange(0, i as int) =~= choices@);
}

/// Appends the text bytes of one decoded event to `out`.
pub fn push_event_text(out: &mut Vec<u8>, j: &Json)
    ensures
        final(out)@ == old(out)@ + event_text(*j),
{
    match get(j, "choices") {
        Some(Json::Array(choices)) => push_choices_text(out, choices),
        _ => {
            assert(out@ =~= old(out)@ + Seq::<u8>::empty());
        },
    }
}

/// The data value of a line, trimmed, if it is a `data:` field.
pub fn data_field_of(line: &[u8]) -> (r: Option<String>)
    ensures
        match r {
            Some(d) => data_field(line@) == Some(d@),
            None => data_field(line@) is None,
        },
{
    let text = lossy_text(line);
    let t = trim(text.as_str());
    if t.is_empty() || starts_with(t, ":") || !starts_with(t, "data:") {
        return None;
    }
    proof {
        reveal_strlit("data:");
    }
    let rest = t.substring_char(5, t.unicode_len());
    Some(String::from_str(trim(rest)))
}

/// What one complete line means to the stream.
#[derive(Debug)]
pub enum LineEvent {
    /// Nothing to gather.
    Skip,
    /// The end of the stream.
    Done,
    /// A decoded event.
    Event(Json),
}

/// Reads one complete line.
pub fn read_line(line: &[u8]) -> (r: LineEvent)
    ensures
        match r {
            LineEvent::Done => is_done_line(line@),
            LineEvent::Skip => !is_done_line(line@) && line_text(line@) == Seq::<u8>::empty(),
            LineEvent::Event(j) => !is_done_line(line@) && line_text(line@) == event_text(j),
        },
{
    match data_field_of(line) {
        None => LineEvent::Skip,
        Some(d) => {
            if str_eq(d.as_str(), "[DONE]") {
                return LineEvent::Done;
            }
            if d.as_str().is_empty() {
                return LineEvent::Skip;
            }
            match parse_json(d.as_str()) {
                Ok(j) => LineEvent::Event(j),
                Err(_) => LineEvent::Skip,
            }
        },
    }
}

// ---------------------------------------------------------------------------
// The accumulator

/// The per-attempt state of a stream: bytes after the last newline, the text
/// gathered so far, whether the end marker was seen and whether the text hit
/// the size cap. `received` is every byte taken in so far.
pub struct StreamAccumulator {
    pub buffer: Vec<u8>,
    pub content: Vec<u8>,
    pub done: bool,
    pub truncated: bool,
    pub received: Ghost<Seq<u8>>,
}

impl StreamAccumulator {
    /// Buffer, text and flags are those of a stream that delivered exactly
    /// the bytes `received`.
    pub open spec fn wf(&self) -> bool {
        let g = gather(complete_lines(self.received@));
        &&& self.done == g.1
        &&& self.truncated == (g.0.len() > MAX_CONTENT_BYTES)
        &&& self.content@ == capped(g.0)
        &&& self.buffer@ == pending_bytes(self.received@)
    }

    /// No more input is taken: the end marker was seen or the cap was hit.
    pub open spec fn finished(&self) -> bool {
        self.done || self.truncated
    }

    /// The state before any byte arrives.
    pub fn new() -> (r: StreamAccumulator)
        ensures
            r.wf(),
            r.received@ == Seq::<u8>::empty(),
            !r.finished(),
            r.content@ == Seq::<u8>::empty(),
    {
        StreamAccumulator {
            buffer: Vec::new(),
            content: Vec::new(),
            done: false,
            truncated: false,
            received: Ghost(Seq::empty()),
        }
    }

    fn absorb_line(&mut self, line: &Vec<u8>)
        requires
            !old(self).finished(),
            old(self).content@.len() <= MAX_CONTENT_BYTES,
        ensures
            final(self).buffer == old(self).buffer,
            final(self).received == old(self).received,
            is_done_line(line@) ==> final(self).done && !final(self).truncated
                && final(self).content@ == old(self).content@,
            !is_done_line(line@) ==> {
                let t = old(self).content@ + line_text(line@);
                &&& !final(self).done
                &&& final(self).truncated == (t.len() > MAX_CONTENT_BYTES)
                &&& final(self).content@ == capped(t)
            },
    {
        match read_line(line.as_slice()) {
            LineEvent::Done => {
                self.done = true;
            },
            LineEvent::Skip => {
                assert(self.content@ =~= self.content@ + line_text(line@));
            },
            LineEvent::Event(j) => {
                push_event_text(&mut self.content, &j);
                if self.content.len() > MAX_CONTENT_BYTES {
                    self.content.truncate(MAX_CONTENT_BYTES);
                    self.truncated = true;
                }
            },
        }
    }

    /// The complete lines received so far.
    pub open spec fn received_lines(&self) -> Seq<Seq<u8>> {
        complete_lines(self.received@)
    }

    /// Takes in a chunk of bytes. Every complete line is read in order; the
    /// chunk is taken in whole unless the end marker or the size cap stops
    /// the stream first, in which case the rest of the chunk is left unread.
    /// Returns whether the stream is finished.
    pub fn feed(&mut self, chunk: &[u8]) -> (r: bool)
        requires
            old(self).wf(),
            !old(self).finished(),
        ensures
            final(self).wf(),
            r == final(self).finished(),
            exists|k: int|
                0 <= k <= chunk@.len() && final(self).received@ == old(self).received@
                    + #[trigger] chunk@.subrange(0, k) && (k < chunk@.len() ==> final(self).finished()),
    {
        let ghost start = self.received@;
        let mut i: usize = 0;
        assert(start + chunk@.subrange(0, 0) =~= start);
        while i < chunk.len()
            invariant
                i <= chunk@.len(),
                start == old(self).received@,
                self.wf(),
                !self.finished(),
                self.received@ == start + chunk@.subrange(0, i as int),
            decreases chunk@.len() - i,
        {
            let b = chunk[i];
            let ghost before = self.received@;
            let ghost old_lines = complete_lines(before);
            self.buffer.push(b);
            proof {
                self.received = Ghost(before.push(b));
                assert(self.received@.drop_last() =~= before);
                assert(start + chunk@.subrange(0, i + 1) =~= before.push(b));
            }
            i = i + 1;
            if b == NEWLINE {
                let mut line: Vec<u8> = Vec::new();
                std::mem::swap(&mut line, &mut self.buffer);
                proof {
                    assert(self.received_lines() == old_lines.push(line@));
                    assert(self.received_lines().drop_last() =~= old_lines);
                }
                let ghost lines = self.received_lines();
                self.absorb_line(&line);
                proof {
                    assert(lines.drop_last() =~= old_lines);
                    assert(self.buffer@ =~= Seq::<u8>::empty());
                }
                if self.done || self.truncated {
                    assert(self.received@ == start + chunk@.subrange(0, i as int));
                    return true;
                }
            }
        }
        assert(chunk@.subrange(0, i as int) =~= chunk@);
        false
    }

    /// The state depends on the bytes received alone, not on how they were
    /// cut into chunks: two accumulators that received the same bytes hold
    /// the same buffer, text and flags.
    pub proof fn lemma_chunking_invisible(a: &StreamAccumulator, b: &StreamAccumulator)
        requires
            a.wf(),
            b.wf(),
            a.received@ == b.received@,
        ensures
            a.buffer@ == b.buffer@,
            a.content@ == b.content@,
            a.done == b.done,
            a.truncated == b.truncated,
    {
    }

    /// The size cap: once the gathered text exceeds it, the stream is
    /// finished and holds exactly the first `MAX_CONTENT_BYTES` bytes of that
    /// text; below it, the whole text is held.
    pub proof fn lemma_size_cap(a: &StreamAccumulator)
        requires
            a.wf(),
        ensures
            ({
                let t = gather(a.received_lines()).0;
                &&& t.len() > MAX_CONTENT_BYTES ==> a.finished() && a.content@.len()
                    == MAX_CONTENT_BYTES && a.content@ == t.subrange(0, MAX_CONTENT_BYTES as int)
                &&& t.len() <= MAX_CONTENT_BYTES ==> a.content@ == t
            }),
    {
    }

    /// The text gathered so far: all of it once the stream has ended, with or
    /// without the end marker.
    pub fn into_text(self) -> (r: Vec<u8>)
        requires
            self.wf(),
        ensures
            r@ == stream_text(self.received@),
            r@.len() <= MAX_CONTENT_BYTES,
    {
        self.content
    }
}

} // verus!
