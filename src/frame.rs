//! Framing of one message inside a byte stream: a start marker, the payload,
//! and an end marker.

use vstd::prelude::*;

verus! {

/// The byte that opens a frame.
pub const START_MARKER: u8 = 0x0B;

/// The byte that closes a frame.
pub const END_MARKER: u8 = 0x1C;

/// Why a frame could not be read.
#[derive(Debug, Clone, Copy, PartialEq, Eq, Structural)]
pub enum FramingError {
    /// The input was empty, or its first byte was not the start marker.
    MissingStartMarker,
}

/// Index of the first end marker in `s` at or after `k`, or `s.len()` when
/// there is none.
pub open spec fn end_from(s: Seq<u8>, k: int) -> int
    decreases s.len() - k,
{
    if k >= s.len() {
        s.len() as int
    } else if s[k] == END_MARKER {
        k
    } else {
        end_from(s, k + 1)
    }
}

/// Whether `s` opens with the start marker.
pub open spec fn starts_frame(s: Seq<u8>) -> bool {
    s.len() > 0 && s[0] == START_MARKER
}

/// The payload of the frame that `s` opens: the bytes after the start marker
/// up to the first end marker, or to the end of the input when no end marker
/// comes.
pub open spec fn frame_payload(s: Seq<u8>) -> Seq<u8> {
    s.subrange(1, end_from(s, 1))
}

proof fn lemma_end_from_bounds(s: Seq<u8>, k: int)
    requires
        0 <= k <= s.len(),
    ensures
        k <= end_from(s, k) <= s.len(),
        end_from(s, k) < s.len() ==> s[end_from(s, k)] == END_MARKER,
        forall|j: int| k <= j < end_from(s, k) ==> s[j] != END_MARKER,
    decreases s.len() - k,
{
    if k < s.len() && s[k] != END_MARKER {
        lemma_end_from_bounds(s, k + 1);
    }
}

/// Where an incremental frame read stands.
#[derive(Debug, Clone, Copy, PartialEq, Eq, Structural)]
pub enum ReadState {
    /// No byte has been read yet.
    AwaitingStart,
    /// The start marker was read; payload bytes are being collected.
    Reading,
    /// The end marker was read: the frame is complete.
    Done,
    /// The first byte was not the start marker.
    Rejected,
}

/// What the reader asks of its caller after one byte.
#[derive(Debug, Clone, Copy, PartialEq, Eq, Structural)]
pub enum ReadStep {
    /// Read another byte.
    NeedMore,
    /// The frame is complete; take it with `finish`.
    Complete,
    /// The first byte was not the start marker; the frame is abandoned.
    MissingStartMarker,
}

/// Reads one frame a byte at a time, as bytes arrive from a stream.
pub struct FrameReader {
    pub state: ReadState,
    pub buffer: Vec<u8>,
}

impl FrameReader {
    /// A reader that has seen no byte.
    pub fn new() -> (r: FrameReader)
        ensures
            r.state == ReadState::AwaitingStart,
            r.buffer@.len() == 0,
    {
        FrameReader { state: ReadState::AwaitingStart, buffer: Vec::new() }
    }

    /// Whether the reader takes no more bytes.
    pub fn is_finished(&self) -> (r: bool)
        ensures
            r == (self.state == ReadState::Done || self.state == ReadState::Rejected),
    {
        match self.state {
            ReadState::Done | ReadState::Rejected => true,
            _ => false,
        }
    }

    /// Hands the reader the next byte of the stream.
    pub fn feed(&mut self, b: u8) -> (r: ReadStep)
        requires
            old(self).state == ReadState::AwaitingStart || old(self).state == ReadState::Reading,
        ensures
            old(self).state == ReadState::AwaitingStart && b == START_MARKER ==> {
                &&& final(self).state == ReadState::Reading
                &&& final(self).buffer@ == old(self).buffer@
                &&& r == ReadStep::NeedMore
            },
            old(self).state == ReadState::AwaitingStart && b != START_MARKER ==> {
                &&& final(self).state == ReadState::Rejected
                &&& final(self).buffer@ == old(self).buffer@
                &&& r == ReadStep::MissingStartMarker
            },
            old(self).state == ReadState::Reading && b == END_MARKER ==> {
                &&& final(self).state == ReadState::Done
                &&& final(self).buffer@ == old(self).buffer@
                &&& r == ReadStep::Complete
            },
            old(self).state == ReadState::Reading && b != END_MARKER ==> {
                &&& final(self).state == ReadState::Reading
                &&& final(self).buffer@ == old(self).buffer@.push(b)
                &&& r == ReadStep::NeedMore
            },
    {
        match self.state {
            ReadState::AwaitingStart => {
                if b == START_MARKER {
                    self.state = ReadState::Reading;
                    ReadStep::NeedMore
                } else {
                    self.state = ReadState::Rejected;
                    ReadStep::MissingStartMarker
                }
            },
            _ => {
                if b == END_MARKER {
                    self.state = ReadState::Done;
                    ReadStep::Complete
                } else {
                    self.buffer.push(b);
                    ReadStep::NeedMore
                }
            },
        }
    }

    /// The payload, once the end marker came or the stream ended. A stream
    /// that ended before any byte, or that opened with another byte, has no
    /// start marker.
    pub fn finish(self) -> (r: Result<Vec<u8>, FramingError>)
        ensures
            (self.state == ReadState::Reading || self.state == ReadState::Done) ==> r == Ok::<
                Vec<u8>,
                FramingError,
            >(self.buffer),
            (self.state == ReadState::AwaitingStart || self.state == ReadState::Rejected) ==> r
                == Err::<Vec<u8>, FramingError>(FramingError::MissingStartMarker),
    {
        match self.state {
            ReadState::Reading | ReadState::Done => Ok(self.buffer),
            _ => Err(FramingError::MissingStartMarker),
        }
    }
}

/// Decodes the frame at the front of `input`. The payload ends before the
/// first end marker; where none comes, it runs to the end of the input.
pub fn decode_frame(input: &Vec<u8>) -> (r: Result<Vec<u8>, FramingError>)
    ensures
        !starts_frame(input@) ==> r == Err::<Vec<u8>, FramingError>(
            FramingError::MissingStartMarker,
        ),
        starts_frame(input@) ==> r is Ok && r->Ok_0@ == frame_payload(input@),
{
    let mut reader = FrameReader::new();
    let mut i: usize = 0;
    while i < input.len() && !reader.is_finished()
        invariant
            0 <= i <= input@.len(),
            i == 0 ==> reader.state == ReadState::AwaitingStart && reader.buffer@.len() == 0,
            i > 0 && !starts_frame(input@) ==> reader.state == ReadState::Rejected,
            i > 0 && starts_frame(input@) ==> {
                &&& reader.state == ReadState::Reading || reader.state == ReadState::Done
                &&& reader.state == ReadState::Reading ==> {
                    &&& reader.buffer@ == input@.subrange(1, i as int)
                    &&& forall|j: int| 1 <= j < i ==> input@[j] != END_MARKER
                }
                &&& reader.state == ReadState::Done ==> {
                    &&& i >= 2
                    &&& input@[i - 1] == END_MARKER
                    &&& reader.buffer@ == input@.subrange(1, i - 1)
                    &&& forall|j: int| 1 <= j < i - 1 ==> input@[j] != END_MARKER
                }
            },
        decreases input@.len() - i,
    {
        let b = input[i];
        let ghost before = reader.buffer@;
        reader.feed(b);
        proof {
            if i > 0 && starts_frame(input@) && b != END_MARKER {
                assert(input@.subrange(1, i + 1) == before.push(b));
            }
            if i > 0 && starts_frame(input@) && b == END_MARKER {
                assert(input@.subrange(1, i as int) == before);
            }
        }
        i = i + 1;
    }
    proof {
        if starts_frame(input@) {
            lemma_end_from_bounds(input@, 1);
            if reader.state == ReadState::Done {
                assert(end_from(input@, 1) == i - 1) by {
                    let e = end_from(input@, 1);
                    if e < i - 1 {
                        assert(input@[e] != END_MARKER);
                    }
                    assert(!(e > i - 1));
                }
            } else {
                assert(end_from(input@, 1) == input@.len()) by {
                    let e = end_from(input@, 1);
                    if e < input@.len() {
                        assert(input@[e] != END_MARKER);
                    }
                }
            }
        }
    }
    reader.finish()
}

/// Wraps `payload` in a start and an end marker.
pub fn encode_frame(payload: &Vec<u8>) -> (r: Vec<u8>)
    ensures
        r@ == seq![START_MARKER] + payload@ + seq![END_MARKER],
{
    let mut out: Vec<u8> = Vec::new();
    out.push(START_MARKER);
    let mut i: usize = 0;
    while i < payload.len()
        invariant
            0 <= i <= payload@.len(),
            out@ == seq![START_MARKER] + payload@.subrange(0, i as int),
        decreases payload@.len() - i,
    {
        out.push(payload[i]);
        proof {
            assert(payload@.subrange(0, i + 1) == payload@.subrange(0, i as int).push(payload@[i as int]));
        }
        i = i + 1;
    }
    out.push(END_MARKER);
    proof {
        assert(payload@.subrange(0, payload@.len() as int) == payload@);
    }
    out
}

} // verus!
