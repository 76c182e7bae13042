//! Length-prefixed framing.
//!
//! Wire format: `[4-byte big-endian length][payload]`. The payload is a
//! MessagePack document; turning messages into payload bytes and back is
//! done by the caller, this module frames and unframes bytes.
use crate::ipc::buffer::{bytes_advance, bytes_at, bytes_contents, bytes_len, bytes_split_to};
use bytes::BytesMut;
use vstd::prelude::*;

verus! {

/// Largest payload a frame may carry: 16 MiB.
pub const MAX_MESSAGE_SIZE: u32 = 16 * 1024 * 1024;

/// Framing errors.
#[derive(Debug, Clone, Copy, PartialEq, Eq, Structural)]
pub enum CodecError {
    /// The payload to send is larger than `MAX_MESSAGE_SIZE` (its length).
    MessageTooLarge(usize),
    /// A received length prefix exceeds `MAX_MESSAGE_SIZE`.
    FrameTooLarge(u32),
}

/// The four big-endian bytes of `n`.
pub open spec fn be_u32_bytes(n: u32) -> Seq<u8> {
    seq![
        (n / 0x100_0000) as u8,
        ((n / 0x1_0000) % 0x100) as u8,
        ((n / 0x100) % 0x100) as u8,
        (n % 0x100) as u8,
    ]
}

/// The big-endian value of the first four bytes of `b`.
pub open spec fn be_u32_value(b: Seq<u8>) -> int {
    b[0] * 0x100_0000 + b[1] * 0x1_0000 + b[2] * 0x100 + b[3]
}

/// The frame that carries `payload`: its length as a `u32`, big-endian, then
/// the payload itself.
pub open spec fn frame(payload: Seq<u8>) -> Seq<u8> {
    be_u32_bytes(payload.len() as u32) + payload
}

/// What one decoding step makes of a receive buffer.
pub enum DecodeStep {
    /// Fewer bytes than the next frame needs: wait for more.
    Incomplete,
    /// The length prefix announces more than `MAX_MESSAGE_SIZE` bytes.
    Oversized(u32),
    /// A whole frame: its payload and the bytes after it.
    Complete { payload: Seq<u8>, rest: Seq<u8> },
}

/// Decoding one frame off the front of `buf`.
pub open spec fn decode_step(buf: Seq<u8>) -> DecodeStep {
    if buf.len() < 4 {
        DecodeStep::Incomplete
    } else {
        let len = be_u32_value(buf);
        if len > MAX_MESSAGE_SIZE {
            DecodeStep::Oversized(len as u32)
        } else if buf.len() < 4 + len {
            DecodeStep::Incomplete
        } else {
            DecodeStep::Complete { payload: buf.subrange(4, 4 + len), rest: buf.skip(4 + len) }
        }
    }
}

proof fn lemma_be_u32_roundtrip(n: u32)
    ensures
        be_u32_value(be_u32_bytes(n)) == n,
{
    let b = be_u32_bytes(n);
    assert(b[0] == n / 0x100_0000);
    assert(b[1] == (n / 0x1_0000) % 0x100);
    assert(b[2] == (n / 0x100) % 0x100);
    assert(b[3] == n % 0x100);
    assert((n / 0x100_0000) * 0x100_0000 + ((n / 0x1_0000) % 0x100) * 0x1_0000 + ((n / 0x100)
        % 0x100) * 0x100 + n % 0x100 == n) by (nonlinear_arith);
}

/// Decoding a buffer that starts with the frame of `payload` yields that
/// payload and leaves exactly the bytes that followed the frame.
pub proof fn law_decode_frame(payload: Seq<u8>, rest: Seq<u8>)
    requires
        payload.len() <= MAX_MESSAGE_SIZE,
    ensures
        decode_step(frame(payload) + rest) == (DecodeStep::Complete { payload, rest }),
{
    let buf = frame(payload) + rest;
    lemma_be_u32_roundtrip(payload.len() as u32);
    assert(buf.subrange(0, 4) =~= be_u32_bytes(payload.len() as u32));
    assert(be_u32_value(buf) == be_u32_value(be_u32_bytes(payload.len() as u32)));
    assert(buf.subrange(4, 4 + payload.len() as int) =~= payload);
    assert(buf.skip(4 + payload.len() as int) =~= rest);
}

/// The frames of `payloads`, one after the other.
pub open spec fn frames(payloads: Seq<Seq<u8>>) -> Seq<u8>
    decreases payloads.len(),
{
    if payloads.len() == 0 {
        Seq::empty()
    } else {
        frame(payloads[0]) + frames(payloads.drop_first())
    }
}

/// Frames sent one after another are decoded in the order they were sent,
/// each exactly once: with the frames of `payloads` (then `rest`) buffered,
/// once `i` frames have been taken the next decoding step yields payload `i`
/// and leaves the frames after it, then `rest`.
pub proof fn law_decode_frames_in_order(payloads: Seq<Seq<u8>>, rest: Seq<u8>, i: int)
    requires
        forall|j: int| 0 <= j < payloads.len() ==> (#[trigger] payloads[j]).len() <= MAX_MESSAGE_SIZE,
        0 <= i < payloads.len(),
    ensures
        frames(payloads.skip(0)) + rest == frames(payloads) + rest,
        decode_step(frames(payloads.skip(i)) + rest) == (DecodeStep::Complete {
            payload: payloads[i],
            rest: frames(payloads.skip(i + 1)) + rest,
        }),
{
    assert(payloads.skip(0) =~= payloads);
    let s = payloads.skip(i);
    assert(s[0] == payloads[i]);
    assert(s.drop_first() =~= payloads.skip(i + 1));
    assert(frames(s) + rest =~= frame(payloads[i]) + (frames(payloads.skip(i + 1)) + rest));
    law_decode_frame(payloads[i], frames(payloads.skip(i + 1)) + rest);
}

/// A buffer holding only part of a frame decodes to nothing yet.
pub proof fn law_partial_frame_incomplete(payload: Seq<u8>, k: int)
    requires
        payload.len() <= MAX_MESSAGE_SIZE,
        0 <= k < frame(payload).len(),
    ensures
        decode_step(frame(payload).take(k)) == DecodeStep::Incomplete,
{
    let f = frame(payload);
    let buf = f.take(k);
    if k >= 4 {
        lemma_be_u32_roundtrip(payload.len() as u32);
        assert(buf.subrange(0, 4) =~= be_u32_bytes(payload.len() as u32));
        assert(be_u32_value(buf) == be_u32_value(be_u32_bytes(payload.len() as u32)));
    }
}

/// Length-prefixed framing of IPC messages.
pub struct Codec;

impl Codec {
    /// Frames `payload`: its length, as a big-endian `u32`, then the payload.
    ///
    /// A payload longer than `MAX_MESSAGE_SIZE` is refused.
    pub fn encode(payload: &[u8]) -> (r: Result<Vec<u8>, CodecError>)
        ensures
            payload@.len() > MAX_MESSAGE_SIZE ==> r == Err::<Vec<u8>, CodecError>(
                CodecError::MessageTooLarge(payload@.len() as usize),
            ),
            payload@.len() <= MAX_MESSAGE_SIZE ==> (r matches Ok(f) && f@ == frame(payload@)
                && be_u32_value(f@) == payload@.len()),
    {
        if payload.len() > MAX_MESSAGE_SIZE as usize {
            return Err(CodecError::MessageTooLarge(payload.len()));
        }
        let len = payload.len() as u32;
        proof {
            lemma_be_u32_roundtrip(len);
        }
        let mut buf: Vec<u8> = Vec::new();
        buf.push((len / 0x100_0000) as u8);
        buf.push(((len / 0x1_0000) % 0x100) as u8);
        buf.push(((len / 0x100) % 0x100) as u8);
        buf.push((len % 0x100) as u8);
        let mut i: usize = 0;
        while i < payload.len()
            invariant
                i <= payload@.len(),
                buf@ == be_u32_bytes(len) + payload@.take(i as int),
            decreases payload@.len() - i,
        {
            buf.push(payload[i]);
            assert(payload@.take(i + 1) =~= payload@.take(i as int).push(payload@[i as int]));
            i = i + 1;
        }
        assert(payload@.take(payload@.len() as int) =~= payload@);
        Ok(buf)
    }

    /// Takes one frame off the front of `buf`.
    ///
    /// `Ok(Some(payload))` when a whole frame is buffered (its bytes are
    /// removed from `buf`); `Ok(None)` when more bytes are needed; `Err` when
    /// the length prefix exceeds `MAX_MESSAGE_SIZE`. `buf` is unchanged
    /// unless a frame is returned.
    pub fn decode(buf: &mut BytesMut) -> (r: Result<Option<BytesMut>, CodecError>)
        ensures
            match decode_step(bytes_contents(*old(buf))) {
                DecodeStep::Incomplete => r == Ok::<Option<BytesMut>, CodecError>(None)
                    && bytes_contents(*final(buf)) == bytes_contents(*old(buf)),
                DecodeStep::Oversized(len) => r == Err::<Option<BytesMut>, CodecError>(
                    CodecError::FrameTooLarge(len),
                ) && bytes_contents(*final(buf)) == bytes_contents(*old(buf)),
                DecodeStep::Complete { payload, rest } => (r matches Ok(Some(p)) && bytes_contents(
                    p,
                ) == payload) && bytes_contents(*final(buf)) == rest,
            },
    {
        let n = bytes_len(buf);
        if n < 4 {
            return Ok(None);
        }
        let b0 = bytes_at(buf, 0) as u32;
        let b1 = bytes_at(buf, 1) as u32;
        let b2 = bytes_at(buf, 2) as u32;
        let b3 = bytes_at(buf, 3) as u32;
        let len: u32 = b0 * 0x100_0000 + b1 * 0x1_0000 + b2 * 0x100 + b3;
        if len > MAX_MESSAGE_SIZE {
            return Err(CodecError::FrameTooLarge(len));
        }
        let total: usize = 4 + len as usize;
        if n < total {
            return Ok(None);
        }
        bytes_advance(buf, 4);
        let payload = bytes_split_to(buf, len as usize);
        proof {
            let old_b = bytes_contents(*old(buf));
            assert(old_b.skip(4).take(len as int) =~= old_b.subrange(4, 4 + len));
            assert(old_b.skip(4).skip(len as int) =~= old_b.skip(4 + len));
        }
        Ok(Some(payload))
    }
}

} // verus!
