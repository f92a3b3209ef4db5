//! Length-prefixed framing of opaque byte payloads.
//!
//! A frame on the wire is the LEB128 encoding of the payload length,
//! followed by that many raw bytes. Each protocol instance configures a
//! maximum payload length; a declared length above it is rejected as soon
//! as the prefix itself has been read, before any payload byte. Reading is
//! resumable: a buffer that holds only part of a frame means "not ready
//! yet", never an error. A zero-length frame is valid.

use vstd::prelude::*;
use crate::varint::{
    decode_varint, encode_varint_into, lemma_varint_roundtrip, parse_varint, varint_encoding,
    varint_len, VarintDecode, VarintParse,
};

verus! {

/// Outcome of reading one frame from the front of a byte sequence.
pub enum FrameParse {
    /// Only part of a frame is there: wait for more input.
    NeedMore,
    /// The length prefix is not a valid LEB128 integer.
    Malformed,
    /// The declared payload length exceeds the configured maximum.
    TooLarge { requested: u64 },
    /// A whole frame: its payload, and how many bytes it occupied.
    Frame { payload: Seq<u8>, consumed: int },
}

/// The encoding of one frame carrying `payload`.
pub open spec fn frame_encoding(payload: Seq<u8>) -> Seq<u8> {
    varint_encoding(payload.len()) + payload
}

/// What reading one frame from the front of `s` yields, under the payload
/// length limit `max`.
pub open spec fn parse_frame(s: Seq<u8>, max: u64) -> FrameParse {
    match parse_varint(s) {
        VarintParse::NeedMore => FrameParse::NeedMore,
        VarintParse::Malformed => FrameParse::Malformed,
        VarintParse::Value { value, length } => if value > max {
            FrameParse::TooLarge { requested: value as u64 }
        } else if s.len() < length + value {
            FrameParse::NeedMore
        } else {
            FrameParse::Frame {
                payload: s.subrange(length as int, (length + value) as int),
                consumed: (length + value) as int,
            }
        },
    }
}

/// Outcome of the executable frame reader.
#[derive(Debug)]
pub enum FrameDecode {
    /// Only part of a frame is in the buffer.
    NeedMore,
    /// The length prefix is not a valid LEB128 integer.
    Malformed,
    /// The declared payload length exceeds the configured maximum.
    TooLarge { requested: u64 },
    /// A whole frame: its payload, and how many bytes of the buffer it
    /// occupied.
    Frame { payload: Vec<u8>, consumed: usize },
}

/// The bytes of `v` from `start` (inclusive) to `end` (exclusive), copied.
pub fn copy_range(v: &Vec<u8>, start: usize, end: usize) -> (r: Vec<u8>)
    requires
        start <= end <= v@.len(),
    ensures
        r@ == v@.subrange(start as int, end as int),
{
    let mut r: Vec<u8> = Vec::new();
    let mut i: usize = start;
    while i < end
        invariant
            start <= i <= end <= v@.len(),
            r@ == v@.subrange(start as int, i as int),
        decreases end - i,
    {
        let b: u8 = v[i];
        proof {
            assert(v@.subrange(start as int, i + 1 as int) =~= v@.subrange(
                start as int,
                i as int,
            ).push(b));
        }
        r.push(b);
        i = i + 1;
    }
    r
}

/// Append the encoding of a frame carrying `payload` to `out`.
pub fn encode_frame_into(out: &mut Vec<u8>, payload: &Vec<u8>)
    ensures
        final(out)@ == old(out)@ + frame_encoding(payload@),
{
    encode_varint_into(out, payload.len() as u64);
    let ghost mid = out@;
    let mut i: usize = 0;
    while i < payload.len()
        invariant
            0 <= i <= payload@.len(),
            out@ == mid + payload@.subrange(0, i as int),
            mid == old(out)@ + varint_encoding(payload@.len()),
        decreases payload@.len() - i,
    {
        let b: u8 = payload[i];
        proof {
            assert((mid + payload@.subrange(0, i as int)).push(b) =~= mid + payload@.subrange(
                0,
                i + 1 as int,
            ));
        }
        out.push(b);
        i = i + 1;
    }
    proof {
        assert(payload@.subrange(0, payload@.len() as int) =~= payload@);
        assert(out@ =~= old(out)@ + frame_encoding(payload@));
    }
}

/// The encoding of a frame carrying `payload`, as a fresh buffer.
pub fn encode_frame(payload: &Vec<u8>) -> (r: Vec<u8>)
    ensures
        r@ == frame_encoding(payload@),
{
    let mut out: Vec<u8> = Vec::new();
    encode_frame_into(&mut out, payload);
    proof {
        assert(out@ =~= frame_encoding(payload@));
    }
    out
}

/// Read one frame from the front of `buf`, under the payload length limit
/// `max`. The buffer is left untouched; `consumed` tells the caller how
/// many bytes the frame occupied.
pub fn decode_frame(buf: &Vec<u8>, max: u64) -> (r: FrameDecode)
    ensures
        match r {
            FrameDecode::NeedMore => parse_frame(buf@, max) == FrameParse::NeedMore,
            FrameDecode::Malformed => parse_frame(buf@, max) == FrameParse::Malformed,
            FrameDecode::TooLarge { requested } => parse_frame(buf@, max)
                == (FrameParse::TooLarge { requested }),
            FrameDecode::Frame { payload, consumed } => parse_frame(buf@, max)
                == (FrameParse::Frame { payload: payload@, consumed: consumed as int })
                && consumed <= buf@.len(),
        },
{
    match decode_varint(buf) {
        VarintDecode::NeedMore => FrameDecode::NeedMore,
        VarintDecode::Malformed => FrameDecode::Malformed,
        VarintDecode::Value { value, length } => {
            if value > max {
                FrameDecode::TooLarge { requested: value }
            } else if value > (buf.len() - length) as u64 {
                FrameDecode::NeedMore
            } else {
                let consumed: usize = length + value as usize;
                let payload: Vec<u8> = copy_range(buf, length, consumed);
                FrameDecode::Frame { payload, consumed }
            }
        },
    }
}

/// Round trip: a frame whose payload observes the limit is read back
/// losslessly from the front of any byte sequence it begins, consuming
/// exactly its own encoding and leaving the rest.
pub proof fn lemma_frame_roundtrip(payload: Seq<u8>, rest: Seq<u8>, max: u64)
    requires
        payload.len() <= max,
    ensures
        parse_frame(frame_encoding(payload) + rest, max) == (FrameParse::Frame {
            payload,
            consumed: frame_encoding(payload).len() as int,
        }),
        (frame_encoding(payload) + rest).skip(frame_encoding(payload).len() as int) == rest,
{
    let n: u64 = payload.len() as u64;
    let s = frame_encoding(payload) + rest;
    crate::varint::lemma_varint_encoding_len(n as nat);
    assert(s =~= varint_encoding(n as nat) + (payload + rest));
    lemma_varint_roundtrip(n, payload + rest);
    let vl = varint_len(n as nat);
    assert(parse_varint(s) == (VarintParse::Value { value: n as nat, length: vl }));
    assert(s.len() >= vl + n);
    assert(s.subrange(vl as int, (vl + n) as int) =~= payload);
    assert(s.skip(frame_encoding(payload).len() as int) =~= rest);
}

/// The concatenated encodings of a run of frames, in order.
pub open spec fn encode_frames(frames: Seq<Seq<u8>>) -> Seq<u8>
    decreases frames.len(),
{
    if frames.len() == 0 {
        Seq::empty()
    } else {
        frame_encoding(frames.first()) + encode_frames(frames.drop_first())
    }
}

/// First-in, first-out: when a run of frames, each within the limit, is
/// encoded back to back, reading resumes at the `i`-th frame's encoding and
/// yields exactly the `i`-th payload, leaving the later frames in order.
pub proof fn lemma_frames_fifo(frames: Seq<Seq<u8>>, i: int, rest: Seq<u8>, max: u64)
    requires
        0 <= i < frames.len(),
        forall|j: int| 0 <= j < frames.len() ==> (#[trigger] frames[j]).len() <= max,
    ensures
        parse_frame(encode_frames(frames.skip(i)) + rest, max) == (FrameParse::Frame {
            payload: frames[i],
            consumed: frame_encoding(frames[i]).len() as int,
        }),
        (encode_frames(frames.skip(i)) + rest).skip(frame_encoding(frames[i]).len() as int)
            == encode_frames(frames.skip(i + 1)) + rest,
{
    let tail = frames.skip(i);
    assert(tail.len() > 0);
    assert(tail.first() == frames[i]);
    assert(tail.drop_first() =~= frames.skip(i + 1));
    assert(encode_frames(tail) == frame_encoding(frames[i]) + encode_frames(frames.skip(i + 1)));
    let rest2 = encode_frames(frames.skip(i + 1)) + rest;
    assert(encode_frames(tail) + rest =~= frame_encoding(frames[i]) + rest2);
    lemma_frame_roundtrip(frames[i], rest2, max);
}

} // verus!
