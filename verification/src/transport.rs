//! A byte-level model of one end of a duplex substream.
//!
//! A [`Socket`] stands for the duplex byte stream that the multiplexer
//! hands this protocol: a receive buffer fed by the remote, a transmit
//! buffer of bytes written but not yet flushed, the bytes already flushed
//! onto the wire, and one half-close flag per direction. Three readiness
//! flags model transport backpressure: a flush or close attempt finding
//! its flag down reports [`Poll::Pending`] and changes nothing, exactly
//! as a cooperative poll step would, and the write flag is what a sender
//! consults before pushing a frame. The surrounding event loop owns the
//! socket: it feeds
//! arriving bytes in with [`Socket::deliver`], carries flushed bytes away
//! with [`Socket::take_written`], and toggles readiness as the transport
//! allows.

use vstd::prelude::*;
use crate::codec::{decode_frame, encode_frame_into, frame_encoding, parse_frame, FrameDecode,
    FrameParse};
use crate::error::{FrameError, IoError};

verus! {

/// One non-blocking step of a cooperative operation: done, or try again
/// once the transport makes progress possible.
#[derive(Debug)]
pub enum Poll<T> {
    /// The operation cannot advance yet; nothing was changed.
    Pending,
    /// The operation finished with this outcome.
    Ready(T),
}

/// The abstract state of a [`Socket`].
pub struct SocketView {
    /// Bytes arrived from the remote and not yet consumed.
    pub rx: Seq<u8>,
    /// Whether the remote has closed its writing side.
    pub rx_closed: bool,
    /// Bytes written locally and not yet flushed.
    pub buf: Seq<u8>,
    /// Bytes flushed onto the wire and not yet carried away.
    pub tx: Seq<u8>,
    /// Whether the local writing side has been closed.
    pub tx_closed: bool,
    /// Whether the transport accepts new writes right now.
    pub write_ready: bool,
    /// Whether a flush can complete right now.
    pub flush_ready: bool,
    /// Whether a close can complete right now.
    pub close_ready: bool,
}

/// `io` with `n` received bytes consumed.
pub open spec fn with_rx_skipped(io: SocketView, n: int) -> SocketView {
    SocketView { rx: io.rx.skip(n), ..io }
}

/// `io` with `bytes` appended to the unflushed transmit buffer.
pub open spec fn with_buf_appended(io: SocketView, bytes: Seq<u8>) -> SocketView {
    SocketView { buf: io.buf + bytes, ..io }
}

/// `io` after a completed flush: the transmit buffer moves onto the wire.
pub open spec fn flushed(io: SocketView) -> SocketView {
    SocketView { buf: Seq::empty(), tx: io.tx + io.buf, ..io }
}

/// `io` after a completed close: a final flush, then the writing side ends.
pub open spec fn closed_local(io: SocketView) -> SocketView {
    SocketView { buf: Seq::empty(), tx: io.tx + io.buf, tx_closed: true, ..io }
}

/// What writing one frame does: an error after a local close, otherwise the
/// frame's encoding joins the unflushed transmit buffer.
pub open spec fn write_frame_step(io: SocketView, payload: Seq<u8>) -> (SocketView, Result<
    (),
    IoError,
>) {
    if io.tx_closed {
        (io, Result::Err(IoError::Closed))
    } else {
        (with_buf_appended(io, frame_encoding(payload)), Result::Ok(()))
    }
}

/// What enqueueing one frame under the payload limit `max` does: a payload
/// above the limit is refused without touching the stream.
pub open spec fn send_frame_step(io: SocketView, payload: Seq<u8>, max: u64) -> (SocketView, Result<
    (),
    IoError,
>) {
    if payload.len() > max {
        (io, Result::Err(IoError::OversizedFrame))
    } else {
        write_frame_step(io, payload)
    }
}

/// What one flush attempt does.
pub open spec fn flush_step(io: SocketView) -> (SocketView, Poll<Result<(), IoError>>) {
    if io.tx_closed {
        (io, Poll::Ready(Result::Err(IoError::Closed)))
    } else if !io.flush_ready {
        (io, Poll::Pending)
    } else {
        (flushed(io), Poll::Ready(Result::Ok(())))
    }
}

/// What one close attempt does. Closing twice is a completed no-op.
pub open spec fn close_step(io: SocketView) -> (SocketView, Poll<Result<(), IoError>>) {
    if io.tx_closed {
        (io, Poll::Ready(Result::Ok(())))
    } else if !io.close_ready {
        (io, Poll::Pending)
    } else {
        (closed_local(io), Poll::Ready(Result::Ok(())))
    }
}

/// Outcome of one attempt to read a frame off the socket.
#[derive(Debug)]
pub enum FrameRead {
    /// No whole frame is there yet and the remote may still send one.
    Pending,
    /// One frame, consumed from the receive buffer.
    Frame(Vec<u8>),
    /// The remote closed its writing side after the last whole frame.
    End,
    /// The frame could not be read; the receive buffer is left as it was.
    Failed(FrameError),
}

/// The abstract value of a [`FrameRead`].
pub enum FrameReadView {
    Pending,
    Frame(Seq<u8>),
    End,
    Failed(FrameError),
}

impl View for FrameRead {
    type V = FrameReadView;

    open spec fn view(&self) -> FrameReadView {
        match self {
            FrameRead::Pending => FrameReadView::Pending,
            FrameRead::Frame(payload) => FrameReadView::Frame(payload@),
            FrameRead::End => FrameReadView::End,
            FrameRead::Failed(err) => FrameReadView::Failed(*err),
        }
    }
}

/// What one read attempt does: a whole frame is consumed; a partial frame
/// waits unless the remote already closed, which mid-frame is a truncated
/// stream; a bad or oversized prefix fails without consuming anything.
pub open spec fn read_frame_step(io: SocketView, max: u64) -> (SocketView, FrameReadView) {
    match parse_frame(io.rx, max) {
        FrameParse::Frame { payload, consumed } => (
            with_rx_skipped(io, consumed),
            FrameReadView::Frame(payload),
        ),
        FrameParse::NeedMore => if !io.rx_closed {
            (io, FrameReadView::Pending)
        } else if io.rx.len() == 0 {
            (io, FrameReadView::End)
        } else {
            (io, FrameReadView::Failed(FrameError::Io(IoError::UnexpectedEof)))
        },
        FrameParse::TooLarge { requested } => (
            io,
            FrameReadView::Failed(FrameError::TooLarge { requested, max }),
        ),
        FrameParse::Malformed => (io, FrameReadView::Failed(FrameError::Malformed)),
    }
}

/// One end of a duplex byte substream, with explicit backpressure.
pub struct Socket {
    rx: Vec<u8>,
    rx_closed: bool,
    buf: Vec<u8>,
    tx: Vec<u8>,
    tx_closed: bool,
    write_ready: bool,
    flush_ready: bool,
    close_ready: bool,
}

impl View for Socket {
    type V = SocketView;

    closed spec fn view(&self) -> SocketView {
        SocketView {
            rx: self.rx@,
            rx_closed: self.rx_closed,
            buf: self.buf@,
            tx: self.tx@,
            tx_closed: self.tx_closed,
            write_ready: self.write_ready,
            flush_ready: self.flush_ready,
            close_ready: self.close_ready,
        }
    }
}

impl Socket {
    /// A fresh endpoint: nothing received, nothing written, both directions
    /// open, the transport ready for everything.
    pub fn new() -> (s: Socket)
        ensures
            s@.rx == Seq::<u8>::empty(),
            !s@.rx_closed,
            s@.buf == Seq::<u8>::empty(),
            s@.tx == Seq::<u8>::empty(),
            !s@.tx_closed,
            s@.write_ready,
            s@.flush_ready,
            s@.close_ready,
    {
        Socket {
            rx: Vec::new(),
            rx_closed: false,
            buf: Vec::new(),
            tx: Vec::new(),
            tx_closed: false,
            write_ready: true,
            flush_ready: true,
            close_ready: true,
        }
    }

    /// Bytes arriving from the remote join the receive buffer.
    pub fn deliver(&mut self, data: &Vec<u8>)
        requires
            !old(self)@.rx_closed,
        ensures
            final(self)@ == (SocketView { rx: old(self)@.rx + data@, ..old(self)@ }),
    {
        let mut incoming: Vec<u8> = Vec::new();
        let mut i: usize = 0;
        while i < data.len()
            invariant
                0 <= i <= data@.len(),
                incoming@ == data@.subrange(0, i as int),
            decreases data@.len() - i,
        {
            let b: u8 = data[i];
            proof {
                assert(data@.subrange(0, i as int).push(b) =~= data@.subrange(0, i + 1 as int));
            }
            incoming.push(b);
            i = i + 1;
        }
        proof {
            assert(incoming@ =~= data@);
        }
        self.rx.append(&mut incoming);
    }

    /// The remote has closed its writing side.
    pub fn close_remote(&mut self)
        ensures
            final(self)@ == (SocketView { rx_closed: true, ..old(self)@ }),
    {
        self.rx_closed = true;
    }

    /// Drain the bytes flushed onto the wire, for the transport to carry.
    pub fn take_written(&mut self) -> (out: Vec<u8>)
        ensures
            out@ == old(self)@.tx,
            final(self)@ == (SocketView { tx: Seq::empty(), ..old(self)@ }),
    {
        let out = self.tx.split_off(0);
        proof {
            assert(out@ =~= old(self)@.tx);
            assert(self.tx@ =~= Seq::<u8>::empty());
        }
        out
    }

    /// Let the transport accept, or refuse, new writes.
    pub fn set_write_ready(&mut self, ready: bool)
        ensures
            final(self)@ == (SocketView { write_ready: ready, ..old(self)@ }),
    {
        self.write_ready = ready;
    }

    /// Let a flush complete, or stall.
    pub fn set_flush_ready(&mut self, ready: bool)
        ensures
            final(self)@ == (SocketView { flush_ready: ready, ..old(self)@ }),
    {
        self.flush_ready = ready;
    }

    /// Let a close complete, or stall.
    pub fn set_close_ready(&mut self, ready: bool)
        ensures
            final(self)@ == (SocketView { close_ready: ready, ..old(self)@ }),
    {
        self.close_ready = ready;
    }

    /// Whether the transport accepts new writes right now.
    pub fn is_write_ready(&self) -> (r: bool)
        ensures
            r == self@.write_ready,
    {
        self.write_ready
    }

    /// Whether the remote has closed its writing side.
    pub fn is_remote_closed(&self) -> (r: bool)
        ensures
            r == self@.rx_closed,
    {
        self.rx_closed
    }

    /// Whether the local writing side has been closed.
    pub fn is_local_closed(&self) -> (r: bool)
        ensures
            r == self@.tx_closed,
    {
        self.tx_closed
    }

    /// Write one frame, with no limit on its payload.
    pub fn write_frame(&mut self, payload: &Vec<u8>) -> (r: Result<(), IoError>)
        ensures
            (final(self)@, r) == write_frame_step(old(self)@, payload@),
    {
        if self.tx_closed {
            Result::Err(IoError::Closed)
        } else {
            encode_frame_into(&mut self.buf, payload);
            Result::Ok(())
        }
    }

    /// Enqueue one frame whose payload must observe the limit `max`.
    pub fn send_frame(&mut self, payload: &Vec<u8>, max: u64) -> (r: Result<(), IoError>)
        ensures
            (final(self)@, r) == send_frame_step(old(self)@, payload@, max),
    {
        if payload.len() as u64 > max {
            Result::Err(IoError::OversizedFrame)
        } else {
            self.write_frame(payload)
        }
    }

    /// One attempt to flush the written bytes onto the wire.
    pub fn poll_flush(&mut self) -> (r: Poll<Result<(), IoError>>)
        ensures
            (final(self)@, r) == flush_step(old(self)@),
    {
        if self.tx_closed {
            Poll::Ready(Result::Err(IoError::Closed))
        } else if !self.flush_ready {
            Poll::Pending
        } else {
            let mut pending: Vec<u8> = self.buf.split_off(0);
            proof {
                assert(pending@ =~= old(self)@.buf);
                assert(self.buf@ =~= Seq::<u8>::empty());
            }
            self.tx.append(&mut pending);
            Poll::Ready(Result::Ok(()))
        }
    }

    /// One attempt to close the local writing side; pending bytes are
    /// flushed first.
    pub fn poll_close(&mut self) -> (r: Poll<Result<(), IoError>>)
        ensures
            (final(self)@, r) == close_step(old(self)@),
    {
        if self.tx_closed {
            Poll::Ready(Result::Ok(()))
        } else if !self.close_ready {
            Poll::Pending
        } else {
            let mut pending: Vec<u8> = self.buf.split_off(0);
            proof {
                assert(pending@ =~= old(self)@.buf);
                assert(self.buf@ =~= Seq::<u8>::empty());
            }
            self.tx.append(&mut pending);
            self.tx_closed = true;
            Poll::Ready(Result::Ok(()))
        }
    }

    /// One attempt to read a frame off the socket, under the payload limit
    /// `max`.
    pub fn poll_read_frame(&mut self, max: u64) -> (r: FrameRead)
        ensures
            final(self)@ == read_frame_step(old(self)@, max).0,
            r@ == read_frame_step(old(self)@, max).1,
    {
        match decode_frame(&self.rx, max) {
            FrameDecode::Frame { payload, consumed } => {
                let tail = self.rx.split_off(consumed);
                self.rx = tail;
                proof {
                    assert(self.rx@ =~= old(self)@.rx.skip(consumed as int));
                }
                FrameRead::Frame(payload)
            },
            FrameDecode::NeedMore => {
                if !self.rx_closed {
                    FrameRead::Pending
                } else if self.rx.len() == 0 {
                    FrameRead::End
                } else {
                    FrameRead::Failed(FrameError::Io(IoError::UnexpectedEof))
                }
            },
            FrameDecode::TooLarge { requested } => {
                FrameRead::Failed(FrameError::TooLarge { requested, max })
            },
            FrameDecode::Malformed => FrameRead::Failed(FrameError::Malformed),
        }
    }
}

} // verus!
