use vstd::prelude::*;
use vstd::string::*;
use crate::text::{has_prefix, lemma_next_index, line_end_at, next_index, same_text, skip_chars, starts_with, trim, trimmed};

verus! {

/// What one `data: ` line of a streamed reply turned out to be once decoded.
pub enum Frame {
    /// The first choice carried this piece of text.
    Delta(String),
    /// A well-formed frame without text.
    Empty,
    /// A frame that did not decode; it is skipped.
    Malformed,
}

pub open spec fn frame_text(f: Frame) -> Seq<char> {
    match f {
        Frame::Delta(s) => s@,
        _ => Seq::empty(),
    }
}

/// The text that a run of frames adds up to.
pub open spec fn accumulated(frames: Seq<Frame>) -> Seq<char>
    decreases frames.len(),
{
    if frames.len() == 0 {
        Seq::empty()
    } else {
        accumulated(frames.drop_last()) + frame_text(frames.last())
    }
}

/// The payload of one line of an event stream: the text after `data: ` once the line
/// is trimmed, unless the line is blank or the end marker.
pub open spec fn payload_of_line(line: Seq<char>) -> Option<Seq<char>> {
    let t = trimmed(line);
    if t.len() == 0 || t == "data: [DONE]"@ {
        None
    } else if has_prefix(t, "data: "@) {
        Some(t.subrange("data: "@.len() as int, t.len() as int))
    } else {
        None
    }
}

/// The payloads of the lines of `s` from position `i` on, in order.
pub open spec fn payloads_from(s: Seq<char>, i: int) -> Seq<Seq<char>>
    decreases s.len() + 1 - i,
    via payloads_from_decreases
{
    if i >= s.len() {
        Seq::empty()
    } else {
        let e = next_index(s, '\n', i);
        let rest = payloads_from(s, e + 1);
        match payload_of_line(s.subrange(i, e)) {
            Some(p) => seq![p] + rest,
            None => rest,
        }
    }
}

#[via_fn]
proof fn payloads_from_decreases(s: Seq<char>, i: int) {
    lemma_next_index(s, '\n', i);
}

/// The text of a chunk of bytes, with each ill-formed sequence replaced by U+FFFD.
pub uninterp spec fn lossy_text_of(b: Seq<u8>) -> Seq<char>;

/// Relies on `String::from_utf8_lossy`, whose result depends on the bytes alone.
#[verifier::external_body]
fn decode_lossy(b: &[u8]) -> (r: String)
    ensures
        r@ == lossy_text_of(b@),
{
    String::from_utf8_lossy(b).into_owned()
}

/// The payload of one line, or `None` for a line that carries none.
pub fn frame_payload(line: &str) -> (r: Option<&str>)
    ensures
        match r {
            Some(p) => payload_of_line(line@) == Some(p@),
            None => payload_of_line(line@) is None,
        },
{
    let t = trim(line);
    if t.unicode_len() == 0 || same_text(t, "data: [DONE]") {
        return None;
    }
    let prefix = "data: ";
    if starts_with(t, prefix) {
        Some(skip_chars(t, prefix.unicode_len()))
    } else {
        None
    }
}

/// The payloads of the lines of `text`, in order.
pub fn text_payloads(text: &str) -> (r: Vec<String>)
    ensures
        r.deep_view() == payloads_from(text@, 0),
{
    let n = text.unicode_len();
    let mut out: Vec<String> = Vec::new();
    let mut i: usize = 0;
    assert(out.deep_view() =~= Seq::<Seq<char>>::empty());
    while i < n
        invariant
            i <= n,
            n == text@.len(),
            out.deep_view() + payloads_from(text@, i as int) == payloads_from(text@, 0),
        decreases n - i,
    {
        let e = line_end_at(text, n, i);
        let line = text.substring_char(i, e);
        let ghost before = out.deep_view();
        let ghost rest = payloads_from(text@, e + 1);
        match frame_payload(line) {
            Some(p) => {
                out.push(String::from_str(p));
                assert(out.deep_view() =~= before.push(p@));
                assert(before + (seq![p@] + rest) =~= before.push(p@) + rest);
            },
            None => {},
        }
        if e == n {
            assert(payloads_from(text@, e + 1) == payloads_from(text@, n as int));
            i = n;
        } else {
            i = e + 1;
        }
    }
    assert(out.deep_view() + Seq::<Seq<char>>::empty() =~= out.deep_view());
    out
}

/// The payloads of the lines of one chunk of a streamed reply.
pub fn chunk_payloads(chunk: &[u8]) -> (r: Vec<String>)
    ensures
        r.deep_view() == payloads_from(lossy_text_of(chunk@), 0),
{
    let text = decode_lossy(chunk);
    text_payloads(text.as_str())
}

impl Frame {
    /// The frame that a decoded payload makes: `decoded` holds the content of the delta of
    /// each choice, or is `Err` when the payload did not decode.
    pub fn from_decoded(decoded: Result<Vec<Option<String>>, ()>) -> (r: Frame)
        ensures
            match decoded {
                Err(_) => r is Malformed,
                Ok(cs) => if cs@.len() > 0 && cs@[0] is Some {
                    r == Frame::Delta(cs@[0]->0)
                } else {
                    r is Empty
                },
            },
    {
        match decoded {
            Err(_) => Frame::Malformed,
            Ok(mut cs) => {
                if cs.len() == 0 {
                    return Frame::Empty;
                }
                let first = cs.swap_remove(0);
                match first {
                    Some(s) => Frame::Delta(s),
                    None => Frame::Empty,
                }
            },
        }
    }
}

/// The text received so far in one streamed call: always what the frames taken in so far
/// add up to.
pub struct StreamAccumulator {
    content: String,
    frames: Ghost<Seq<Frame>>,
}

impl View for StreamAccumulator {
    type V = Seq<char>;

    closed spec fn view(&self) -> Seq<char> {
        self.content@
    }
}

impl StreamAccumulator {
    #[verifier::type_invariant]
    spec fn inv(&self) -> bool {
        self.content@ == accumulated(self.frames@)
    }

    /// The frames taken in so far, in order.
    pub closed spec fn frames(&self) -> Seq<Frame> {
        self.frames@
    }

    pub fn new() -> (r: StreamAccumulator)
        ensures
            r.frames() == Seq::<Frame>::empty(),
            r@ == accumulated(r.frames()),
            r@ == Seq::<char>::empty(),
    {
        StreamAccumulator { content: String::new(), frames: Ghost(Seq::empty()) }
    }

    /// Takes in one frame. A piece of text is appended and handed back, to be shown at
    /// once; any other frame changes nothing.
    pub fn accept(&mut self, frame: Frame) -> (shown: Option<String>)
        ensures
            final(self).frames() == old(self).frames().push(frame),
            final(self)@ == accumulated(final(self).frames()),
            final(self)@ == old(self)@ + frame_text(frame),
            match frame {
                Frame::Delta(s) => shown == Some(s),
                _ => shown is None,
            },
    {
        proof {
            use_type_invariant(&*self);
        }
        let ghost f = frame;
        let ghost before = self.frames@;
        let ghost new_frames = before.push(f);
        assert(new_frames.drop_last() =~= before);
        let mut taken = StreamAccumulator::new();
        core::mem::swap(self, &mut taken);
        proof {
            use_type_invariant(&taken);
        }
        let StreamAccumulator { content: mut content, frames: _ } = taken;
        let shown = match frame {
            Frame::Delta(s) => {
                content.append(s.as_str());
                Some(s)
            },
            _ => {
                assert(content@ + Seq::<char>::empty() =~= content@);
                None
            },
        };
        *self = StreamAccumulator { content, frames: Ghost(new_frames) };
        shown
    }

    /// The whole text received.
    pub fn into_content(self) -> (r: String)
        ensures
            r@ == self@,
            r@ == accumulated(self.frames()),
    {
        proof {
            use_type_invariant(&self);
        }
        self.content
    }
}

proof fn lemma_accumulated_concat(a: Seq<Frame>, b: Seq<Frame>)
    ensures
        accumulated(a + b) == accumulated(a) + accumulated(b),
    decreases b.len(),
{
    if b.len() == 0 {
        assert(a + b =~= a);
        assert(accumulated(a) + Seq::<char>::empty() =~= accumulated(a));
    } else {
        lemma_accumulated_concat(a, b.drop_last());
        assert((a + b).drop_last() =~= a + b.drop_last());
        assert((a + b).last() == b.last());
        assert(accumulated(a) + accumulated(b.drop_last()) + frame_text(b.last()) =~= accumulated(
            a,
        ) + (accumulated(b.drop_last()) + frame_text(b.last())));
    }
}

/// A frame that does not decode, wherever it stands in the stream, leaves the
/// accumulated text as if it had not been there.
pub proof fn malformed_frame_is_skipped(before: Seq<Frame>, after: Seq<Frame>)
    ensures
        accumulated(before + seq![Frame::Malformed] + after) == accumulated(before) + accumulated(
            after,
        ),
{
    lemma_accumulated_concat(before + seq![Frame::Malformed], after);
    lemma_accumulated_concat(before, seq![Frame::Malformed]);
    let one = seq![Frame::Malformed];
    assert(one.drop_last() =~= Seq::<Frame>::empty());
    assert(one.last() == Frame::Malformed);
    assert(accumulated(Seq::<Frame>::empty()) == Seq::<char>::empty());
    assert(Seq::<char>::empty() + Seq::<char>::empty() =~= Seq::<char>::empty());
    assert(accumulated(seq![Frame::Malformed]) =~= Seq::<char>::empty());
    assert(accumulated(before) + Seq::<char>::empty() =~= accumulated(before));
}

} // verus!
