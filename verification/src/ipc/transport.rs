//! The receiving side of an IPC connection, without the socket.
//!
//! A `FrameReader` holds the bytes read so far. The caller that owns the
//! stream asks it for the next frame, and when there is none, reads from the
//! stream and hands it what it read (an empty read being end of stream).
use crate::ipc::buffer::{bytes_clear, bytes_contents, bytes_extend, bytes_len, bytes_with_capacity};
use crate::ipc::codec::{decode_step, Codec, CodecError, DecodeStep};
use bytes::BytesMut;
use vstd::prelude::*;

verus! {

/// Default voice shell port for the TCP transport.
pub const VOICE_TCP_PORT: u16 = 19820;

/// Default tool runtime port for the TCP transport.
pub const TOOLS_TCP_PORT: u16 = 19821;

/// Read buffer size for incoming data.
pub const READ_BUF_SIZE: usize = 8192;

/// Errors while receiving.
#[derive(Debug, Clone, Copy, PartialEq, Eq, Structural)]
pub enum TransportError {
    /// A frame could not be decoded.
    Codec(CodecError),
    /// The peer closed the connection in the middle of a frame; the number of
    /// bytes of that frame that had arrived.
    PeerDisconnected(usize),
}

/// What became of a read.
#[derive(Debug, Clone, Copy, PartialEq, Eq, Structural)]
pub enum ReadProgress {
    /// The bytes were buffered; ask for the next frame again.
    Buffered,
    /// The peer closed the connection between frames.
    Closed,
}

/// Buffers incoming bytes and cuts them into frames.
pub struct FrameReader {
    read_buf: BytesMut,
}

impl FrameReader {
    /// The bytes received and not yet taken as frames.
    pub closed spec fn buffered(&self) -> Seq<u8> {
        bytes_contents(self.read_buf)
    }

    /// A reader with nothing buffered.
    pub fn new() -> (r: Self)
        ensures
            r.buffered() == Seq::<u8>::empty(),
    {
        FrameReader { read_buf: bytes_with_capacity(READ_BUF_SIZE) }
    }

    /// Takes the next whole frame out of the buffer, as `Codec::decode`.
    pub fn next_frame(&mut self) -> (r: Result<Option<BytesMut>, CodecError>)
        ensures
            match decode_step(old(self).buffered()) {
                DecodeStep::Incomplete => r == Ok::<Option<BytesMut>, CodecError>(None)
                    && final(self).buffered() == old(self).buffered(),
                DecodeStep::Oversized(len) => r == Err::<Option<BytesMut>, CodecError>(
                    CodecError::FrameTooLarge(len),
                ) && final(self).buffered() == old(self).buffered(),
                DecodeStep::Complete { payload, rest } => (r matches Ok(Some(p)) && bytes_contents(
                    p,
                ) == payload) && final(self).buffered() == rest,
            },
    {
        Codec::decode(&mut self.read_buf)
    }

    /// Hands the reader the bytes of one read from the stream.
    ///
    /// An empty read is end of stream: with nothing buffered the peer closed
    /// cleanly (`Closed`); with part of a frame buffered that part is dropped
    /// and the result is `PeerDisconnected` with its length. Otherwise the
    /// bytes are appended to the buffer.
    pub fn on_read(&mut self, data: &[u8]) -> (r: Result<ReadProgress, TransportError>)
        requires
            old(self).buffered().len() + data@.len() <= isize::MAX,
        ensures
            data@.len() == 0 && old(self).buffered().len() == 0 ==> r == Ok::<
                ReadProgress,
                TransportError,
            >(ReadProgress::Closed) && final(self).buffered() == old(self).buffered(),
            data@.len() == 0 && old(self).buffered().len() > 0 ==> r == Err::<
                ReadProgress,
                TransportError,
            >(TransportError::PeerDisconnected(old(self).buffered().len() as usize))
                && final(self).buffered() == Seq::<u8>::empty(),
            data@.len() > 0 ==> r == Ok::<ReadProgress, TransportError>(ReadProgress::Buffered)
                && final(self).buffered() == old(self).buffered() + data@,
    {
        if data.len() == 0 {
            let remaining = bytes_len(&self.read_buf);
            if remaining == 0 {
                return Ok(ReadProgress::Closed);
            }
            bytes_clear(&mut self.read_buf);
            return Err(TransportError::PeerDisconnected(remaining));
        }
        bytes_extend(&mut self.read_buf, data);
        Ok(ReadProgress::Buffered)
    }

    /// Number of bytes buffered.
    pub fn buffered_len(&self) -> (r: usize)
        ensures
            r == self.buffered().len(),
    {
        bytes_len(&self.read_buf)
    }
}

} // verus!
