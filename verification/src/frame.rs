//! Length-prefixed framing of the byte stream between two peers.
//!
//! A frame is four bytes that hold the length of the body, most significant
//! byte first, followed by the body. A stream delivers bytes in pieces of
//! any size, so incoming bytes are gathered in a [`FrameBuffer`] and handed
//! out only as complete frames, in the order of their arrival.
use vstd::prelude::*;

verus! {

/// Number of bytes in the length prefix of a frame.
pub const HEADER_LEN: usize = 4;

/// The longest body that a frame can carry.
pub const MAX_BODY_LEN: usize = 0xffff_ffff;

/// Why a body could not be framed.
#[derive(Debug, Clone, Copy, PartialEq, Eq, Structural)]
pub enum FrameError {
    /// The body is longer than the length prefix can say.
    BodyTooLong,
}

/// The four bytes of a length, most significant first.
pub open spec fn header_spec(len: nat) -> Seq<u8> {
    seq![
        ((len / 16777216) % 256) as u8,
        ((len / 65536) % 256) as u8,
        ((len / 256) % 256) as u8,
        (len % 256) as u8,
    ]
}

/// The length that the first four bytes of `bytes` state.
pub open spec fn header_value(bytes: Seq<u8>) -> nat {
    (bytes[0] as nat) * 16777216 + (bytes[1] as nat) * 65536 + (bytes[2] as nat) * 256 + (
    bytes[3] as nat)
}

/// The frame of a body.
pub open spec fn frame_spec(body: Seq<u8>) -> Seq<u8> {
    header_spec(body.len()) + body
}

/// The first complete frame at the start of `bytes`: its body, and the
/// bytes that follow it. Nothing while the frame is incomplete.
pub open spec fn first_frame_spec(bytes: Seq<u8>) -> Option<(Seq<u8>, Seq<u8>)> {
    if bytes.len() < HEADER_LEN {
        None
    } else if bytes.len() - HEADER_LEN < header_value(bytes) {
        None
    } else {
        let end = HEADER_LEN + header_value(bytes);
        Some(
            (
                bytes.subrange(HEADER_LEN as int, end as int),
                bytes.subrange(end as int, bytes.len() as int),
            ),
        )
    }
}

/// Frames a body: the length prefix, then the body.
pub fn encode_frame(body: &[u8]) -> (frame: Result<Vec<u8>, FrameError>)
    ensures
        body@.len() > MAX_BODY_LEN <==> frame is Err,
        frame is Ok ==> frame.unwrap()@ == frame_spec(body@),
{
    let len = body.len();
    if len > MAX_BODY_LEN {
        return Err(FrameError::BodyTooLong);
    }
    let mut frame: Vec<u8> = Vec::new();
    frame.push(((len / 16777216) % 256) as u8);
    frame.push(((len / 65536) % 256) as u8);
    frame.push(((len / 256) % 256) as u8);
    frame.push((len % 256) as u8);
    assert(frame@ =~= header_spec(body@.len()));
    let mut i: usize = 0;
    while i < len
        invariant
            i <= len,
            len == body@.len(),
            frame@ == header_spec(body@.len()) + body@.subrange(0, i as int),
        decreases len - i,
    {
        frame.push(body[i]);
        assert(frame@ =~= header_spec(body@.len()) + body@.subrange(0, i + 1));
        i += 1;
    }
    assert(body@.subrange(0, len as int) =~= body@);
    Ok(frame)
}

/// The bytes received from one peer that have not yet been handed out.
#[derive(Debug)]
pub struct FrameBuffer {
    pub pending: Vec<u8>,
}

impl View for FrameBuffer {
    type V = Seq<u8>;

    open spec fn view(&self) -> Seq<u8> {
        self.pending@
    }
}

impl FrameBuffer {
    /// A buffer that holds nothing.
    pub fn new() -> (buffer: FrameBuffer)
        ensures
            buffer@ == Seq::<u8>::empty(),
    {
        FrameBuffer { pending: Vec::new() }
    }

    /// Number of bytes waiting.
    pub fn len(&self) -> (len: usize)
        ensures
            len == self@.len(),
    {
        self.pending.len()
    }

    /// Takes in bytes as they arrive, behind those already waiting.
    pub fn push(&mut self, bytes: &[u8])
        ensures
            final(self)@ == old(self)@ + bytes@,
    {
        let ghost before = self.pending@;
        let mut i: usize = 0;
        while i < bytes.len()
            invariant
                i <= bytes@.len(),
                self.pending@ == before + bytes@.subrange(0, i as int),
            decreases bytes@.len() - i,
        {
            self.pending.push(bytes[i]);
            assert(self.pending@ =~= before + bytes@.subrange(0, i + 1));
            i += 1;
        }
        assert(bytes@.subrange(0, bytes@.len() as int) =~= bytes@);
    }

    /// Hands out the body of the first frame once all of it has arrived,
    /// and keeps what follows it. Until then nothing changes.
    pub fn next_frame(&mut self) -> (body: Option<Vec<u8>>)
        ensures
            match first_frame_spec(old(self)@) {
                Some((first, rest)) => body is Some && body.unwrap()@ == first && final(self)@
                    == rest,
                None => body is None && final(self)@ == old(self)@,
            },
    {
        let total = self.pending.len();
        if total < HEADER_LEN {
            return None;
        }
        let stated: u32 = (self.pending[0] as u32) * 16777216 + (self.pending[1] as u32) * 65536
            + (self.pending[2] as u32) * 256 + (self.pending[3] as u32);
        assert(stated == header_value(self.pending@));
        if total - HEADER_LEN < stated as usize {
            return None;
        }
        let end: usize = HEADER_LEN + stated as usize;
        let mut body: Vec<u8> = Vec::new();
        let mut i: usize = HEADER_LEN;
        while i < end
            invariant
                HEADER_LEN <= i <= end <= total,
                total == self.pending@.len(),
                body@ == self.pending@.subrange(HEADER_LEN as int, i as int),
            decreases end - i,
        {
            body.push(self.pending[i]);
            assert(body@ =~= self.pending@.subrange(HEADER_LEN as int, i + 1));
            i += 1;
        }
        let mut rest: Vec<u8> = Vec::new();
        let mut j: usize = end;
        while j < total
            invariant
                end <= j <= total,
                total == self.pending@.len(),
                rest@ == self.pending@.subrange(end as int, j as int),
            decreases total - j,
        {
            rest.push(self.pending[j]);
            assert(rest@ =~= self.pending@.subrange(end as int, j + 1));
            j += 1;
        }
        self.pending = rest;
        Some(body)
    }
}

/// The length prefix states the length it was made from.
pub proof fn lemma_header_round_trip(len: nat)
    requires
        len <= MAX_BODY_LEN,
    ensures
        header_spec(len).len() == HEADER_LEN,
        header_value(header_spec(len)) == len,
{
}

/// A frame followed by any bytes parses to its body and those bytes: one
/// read never yields part of a message, nor two run together.
pub proof fn lemma_frame_round_trip(body: Seq<u8>, rest: Seq<u8>)
    requires
        body.len() <= MAX_BODY_LEN,
    ensures
        first_frame_spec(frame_spec(body) + rest) == Some((body, rest)),
{
    lemma_header_round_trip(body.len());
    let bytes = frame_spec(body) + rest;
    let header = header_spec(body.len());
    assert(bytes[0] == header[0] && bytes[1] == header[1] && bytes[2] == header[2] && bytes[3]
        == header[3]);
    assert(header_value(bytes) == body.len());
    assert(bytes.subrange(HEADER_LEN as int, HEADER_LEN + body.len()) =~= body);
    assert(bytes.subrange(HEADER_LEN + body.len(), bytes.len() as int) =~= rest);
}

/// A strict prefix of a frame is not yet a frame: nothing is handed out
/// before the whole of it has arrived.
pub proof fn lemma_partial_frame_waits(body: Seq<u8>, arrived: int)
    requires
        body.len() <= MAX_BODY_LEN,
        0 <= arrived < frame_spec(body).len(),
    ensures
        first_frame_spec(frame_spec(body).subrange(0, arrived)) is None,
{
    lemma_header_round_trip(body.len());
    let part = frame_spec(body).subrange(0, arrived);
    if arrived >= HEADER_LEN {
        let header = header_spec(body.len());
        assert(part[0] == header[0] && part[1] == header[1] && part[2] == header[2] && part[3]
            == header[3]);
        assert(header_value(part) == body.len());
    }
}

/// Two frames that arrive back to back come out one after the other, in
/// the order of their arrival.
pub proof fn lemma_frames_in_order(first: Seq<u8>, second: Seq<u8>, rest: Seq<u8>)
    requires
        first.len() <= MAX_BODY_LEN,
        second.len() <= MAX_BODY_LEN,
    ensures
        first_frame_spec(frame_spec(first) + frame_spec(second) + rest) == Some(
            (first, frame_spec(second) + rest),
        ),
        first_frame_spec(frame_spec(second) + rest) == Some((second, rest)),
{
    lemma_frame_round_trip(first, frame_spec(second) + rest);
    assert(frame_spec(first) + frame_spec(second) + rest =~= frame_spec(first) + (frame_spec(second)
        + rest));
    lemma_frame_round_trip(second, rest);
}

} // verus!
