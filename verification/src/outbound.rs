//! The outbound notifications substream.
//!
//! After a successful outbound negotiation the substream is a sink of
//! notification frames: ready, send, flush, close. Its one distinguishing
//! design point: every flush attempt first probes the socket for incoming
//! data, even though the channel is outbound-only. A whole frame arriving
//! here is a protocol violation by the remote (`UnexpectedData`); an end
//! of stream or a broken frame means the remote closed the substream
//! (`Closed`). Only a silent receive buffer lets the real flush proceed.
//! The probe is what lets the owner notice a dead substream without ever
//! writing to it.

use vstd::prelude::*;
use crate::error::NotificationsOutError;
use crate::transport::{
    close_step, flush_step, read_frame_step, send_frame_step, FrameRead, FrameReadView, Poll,
    Socket, SocketView,
};
use crate::types::PeerId;

verus! {

/// The abstract state of an outbound substream.
pub struct OutSubstreamView {
    pub peer_id: Seq<u8>,
    pub max_notification_size: u64,
}

/// A substream for outgoing notification messages.
#[derive(Debug)]
pub struct NotificationsOutSubstream {
    peer_id: PeerId,
    max_notification_size: u64,
}

impl View for NotificationsOutSubstream {
    type V = OutSubstreamView;

    closed spec fn view(&self) -> OutSubstreamView {
        OutSubstreamView {
            peer_id: self.peer_id@,
            max_notification_size: self.max_notification_size,
        }
    }
}

/// What enqueueing one notification does: the frame joins the socket's
/// transmit buffer, unless the payload is over the limit or the writing
/// side is already closed.
pub open spec fn out_start_send_spec(io: SocketView, item: Seq<u8>, max: u64) -> (SocketView,
    Result<(), NotificationsOutError>) {
    let (io2, r) = send_frame_step(io, item, max);
    match r {
        Result::Ok(_) => (io2, Result::Ok(())),
        Result::Err(err) => (io2, Result::Err(NotificationsOutError::Io(err))),
    }
}

/// What one flush attempt does: probe the receive side first, then flush.
/// A whole incoming frame is the remote's protocol violation; a failed or
/// ended read means the remote closed the substream; only silence lets
/// the real flush run.
pub open spec fn out_flush_spec(io: SocketView, max: u64) -> (SocketView, Poll<Result<
    (),
    NotificationsOutError,
>>) {
    let (io2, probe) = read_frame_step(io, max);
    match probe {
        FrameReadView::Frame(_) => (
            io2,
            Poll::Ready(Result::Err(NotificationsOutError::UnexpectedData)),
        ),
        FrameReadView::End => (io2, Poll::Ready(Result::Err(NotificationsOutError::Closed))),
        FrameReadView::Failed(_) => (io2, Poll::Ready(Result::Err(NotificationsOutError::Closed))),
        FrameReadView::Pending => {
            let (io3, flushed) = flush_step(io2);
            match flushed {
                Poll::Pending => (io3, Poll::Pending),
                Poll::Ready(Result::Ok(_)) => (io3, Poll::Ready(Result::Ok(()))),
                Poll::Ready(Result::Err(err)) => (
                    io3,
                    Poll::Ready(Result::Err(NotificationsOutError::Io(err))),
                ),
            }
        },
    }
}

/// What one close attempt does.
pub open spec fn out_close_spec(io: SocketView) -> (SocketView, Poll<Result<
    (),
    NotificationsOutError,
>>) {
    let (io2, r) = close_step(io);
    match r {
        Poll::Pending => (io2, Poll::Pending),
        Poll::Ready(Result::Ok(_)) => (io2, Poll::Ready(Result::Ok(()))),
        Poll::Ready(Result::Err(err)) => (
            io2,
            Poll::Ready(Result::Err(NotificationsOutError::Io(err))),
        ),
    }
}

impl NotificationsOutSubstream {
    /// A substream towards `peer_id`, sending frames of at most
    /// `max_notification_size` bytes.
    pub fn new(peer_id: PeerId, max_notification_size: u64) -> (s: Self)
        ensures
            s@ == (OutSubstreamView { peer_id: peer_id@, max_notification_size }),
    {
        NotificationsOutSubstream { peer_id, max_notification_size }
    }

    /// The remote peer, for diagnostics.
    pub fn peer_id(&self) -> (r: &PeerId)
        ensures
            r@ == self@.peer_id,
    {
        &self.peer_id
    }

    /// Whether the transport would accept a frame right now.
    pub fn poll_ready(&self, io: &Socket) -> (r: Poll<Result<(), NotificationsOutError>>)
        ensures
            r == (if io@.write_ready {
                Poll::<Result<(), NotificationsOutError>>::Ready(Result::Ok(()))
            } else {
                Poll::<Result<(), NotificationsOutError>>::Pending
            }),
    {
        if io.is_write_ready() {
            Poll::Ready(Result::Ok(()))
        } else {
            Poll::Pending
        }
    }

    /// Enqueue one notification frame.
    pub fn start_send(&self, io: &mut Socket, item: &Vec<u8>) -> (r: Result<
        (),
        NotificationsOutError,
    >)
        ensures
            (final(io)@, r) == out_start_send_spec(old(io)@, item@, self@.max_notification_size),
    {
        match io.send_frame(item, self.max_notification_size) {
            Result::Ok(_) => Result::Ok(()),
            Result::Err(err) => Result::Err(NotificationsOutError::Io(err)),
        }
    }

    /// One flush attempt, probing for incoming data first.
    pub fn poll_flush(&self, io: &mut Socket) -> (r: Poll<Result<(), NotificationsOutError>>)
        ensures
            (final(io)@, r) == out_flush_spec(old(io)@, self@.max_notification_size),
    {
        match io.poll_read_frame(self.max_notification_size) {
            FrameRead::Frame(_) => Poll::Ready(Result::Err(NotificationsOutError::UnexpectedData)),
            FrameRead::End => Poll::Ready(Result::Err(NotificationsOutError::Closed)),
            FrameRead::Failed(_) => Poll::Ready(Result::Err(NotificationsOutError::Closed)),
            FrameRead::Pending => match io.poll_flush() {
                Poll::Pending => Poll::Pending,
                Poll::Ready(Result::Ok(_)) => Poll::Ready(Result::Ok(())),
                Poll::Ready(Result::Err(err)) => Poll::Ready(
                    Result::Err(NotificationsOutError::Io(err)),
                ),
            },
        }
    }

    /// One attempt to close the substream's writing side.
    pub fn poll_close(&self, io: &mut Socket) -> (r: Poll<Result<(), NotificationsOutError>>)
        ensures
            (final(io)@, r) == out_close_spec(old(io)@),
    {
        match io.poll_close() {
            Poll::Pending => Poll::Pending,
            Poll::Ready(Result::Ok(_)) => Poll::Ready(Result::Ok(())),
            Poll::Ready(Result::Err(err)) => Poll::Ready(
                Result::Err(NotificationsOutError::Io(err)),
            ),
        }
    }
}

/// The probe never lets remote bytes pass in silence: a flush attempt that
/// finds a whole incoming frame fails with `UnexpectedData`, and a flush
/// succeeds only when the receive side is silent and open, the writing
/// side is open, and the transport lets the flush through.
pub proof fn lemma_flush_probes_for_unexpected_data(io: SocketView, max: u64)
    ensures
        (crate::codec::parse_frame(io.rx, max) matches crate::codec::FrameParse::Frame { .. })
            ==> out_flush_spec(io, max).1 == Poll::<Result<(), NotificationsOutError>>::Ready(
            Result::Err(NotificationsOutError::UnexpectedData),
        ),
        out_flush_spec(io, max).1 == Poll::<Result<(), NotificationsOutError>>::Ready(
            Result::Ok(()),
        ) <==> (crate::codec::parse_frame(io.rx, max) == crate::codec::FrameParse::NeedMore
            && !io.rx_closed && !io.tx_closed && io.flush_ready),
{
}

} // verus!
