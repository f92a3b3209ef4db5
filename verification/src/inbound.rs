//! The inbound notifications substream.
//!
//! An accepted substream starts in a state in which the local side must
//! first send back a handshake message; no notification is surfaced before
//! that has been done. The owner supplies the handshake with
//! [`NotificationsInSubstream::send_handshake`], at most once, and then
//! drives the substream by polling: every poll first advances the
//! handshake-send state as far as the transport allows, then tries to
//! surface one incoming notification frame.
//!
//! When the remote closes its writing side, the substream closes its own
//! writing side in response and the sequence of notifications ends.

use vstd::prelude::*;
use crate::error::{FrameError, IoError};
use crate::transport::{
    close_step, flush_step, read_frame_step, send_frame_step, FrameRead, FrameReadView, Poll,
    Socket, SocketView,
};

verus! {

/// State of the handshake sending back process.
///
/// `PendingSend` and `Flush` may be re-entered while the transport pushes
/// back; the state never regresses once the handshake counts as sent.
#[derive(Debug)]
pub enum NotificationsInSubstreamHandshake {
    /// Waiting for the owner to give us the handshake message.
    NotSent,
    /// The owner gave us the handshake message. Trying to push it into the
    /// socket.
    PendingSend(Vec<u8>),
    /// Handshake message pushed into the socket. Still needs a flush.
    Flush,
    /// Handshake message successfully sent and flushed.
    Sent,
    /// The remote closed its writing side. We close our own in return.
    ClosingInResponseToRemote,
    /// Both our side and the remote have closed their writing side.
    BothSidesClosed,
}

/// The abstract value of a handshake-send state.
pub enum HandshakeStateView {
    NotSent,
    PendingSend(Seq<u8>),
    Flush,
    Sent,
    ClosingInResponseToRemote,
    BothSidesClosed,
}

impl View for NotificationsInSubstreamHandshake {
    type V = HandshakeStateView;

    open spec fn view(&self) -> HandshakeStateView {
        match self {
            NotificationsInSubstreamHandshake::NotSent => HandshakeStateView::NotSent,
            NotificationsInSubstreamHandshake::PendingSend(msg) => HandshakeStateView::PendingSend(
                msg@,
            ),
            NotificationsInSubstreamHandshake::Flush => HandshakeStateView::Flush,
            NotificationsInSubstreamHandshake::Sent => HandshakeStateView::Sent,
            NotificationsInSubstreamHandshake::ClosingInResponseToRemote => HandshakeStateView::ClosingInResponseToRemote,
            NotificationsInSubstreamHandshake::BothSidesClosed => HandshakeStateView::BothSidesClosed,
        }
    }
}

/// How far along its life a handshake-send state stands.
pub open spec fn handshake_rank(h: HandshakeStateView) -> int {
    match h {
        HandshakeStateView::NotSent => 0,
        HandshakeStateView::PendingSend(_) => 1,
        HandshakeStateView::Flush => 2,
        HandshakeStateView::Sent => 3,
        HandshakeStateView::ClosingInResponseToRemote => 4,
        HandshakeStateView::BothSidesClosed => 5,
    }
}

/// The abstract state of an inbound substream.
pub struct InSubstreamView {
    pub handshake: HandshakeStateView,
    pub max_notification_size: u64,
}

/// A substream for incoming notification messages.
#[derive(Debug)]
pub struct NotificationsInSubstream {
    handshake: NotificationsInSubstreamHandshake,
    max_notification_size: u64,
}

impl View for NotificationsInSubstream {
    type V = InSubstreamView;

    closed spec fn view(&self) -> InSubstreamView {
        InSubstreamView {
            handshake: self.handshake@,
            max_notification_size: self.max_notification_size,
        }
    }
}

/// Outcome of one poll for the next notification.
#[derive(Debug)]
pub enum InboundPoll {
    /// Nothing can be surfaced yet.
    Pending,
    /// One notification payload, in arrival order.
    Item(Vec<u8>),
    /// The substream failed; the error says how.
    Failed(FrameError),
    /// The sequence of notifications is over (both sides closed).
    Exhausted,
}

/// The abstract value of an [`InboundPoll`].
pub enum InboundPollView {
    Pending,
    Item(Seq<u8>),
    Failed(FrameError),
    Exhausted,
}

impl View for InboundPoll {
    type V = InboundPollView;

    open spec fn view(&self) -> InboundPollView {
        match self {
            InboundPoll::Pending => InboundPollView::Pending,
            InboundPoll::Item(payload) => InboundPollView::Item(payload@),
            InboundPoll::Failed(err) => InboundPollView::Failed(*err),
            InboundPoll::Exhausted => InboundPollView::Exhausted,
        }
    }
}

/// A substream state with handshake-send state `h` and limit `max`.
pub open spec fn in_state(h: HandshakeStateView, max: u64) -> InSubstreamView {
    InSubstreamView { handshake: h, max_notification_size: max }
}

/// Closing our writing side in response to the remote: completion ends the
/// sequence in the same poll; backpressure leaves the state to retry.
pub open spec fn poll_next_closing(max: u64, io: SocketView) -> (InSubstreamView, SocketView,
    InboundPollView) {
    let (io2, r) = close_step(io);
    match r {
        Poll::Pending => (
            in_state(HandshakeStateView::ClosingInResponseToRemote, max),
            io2,
            InboundPollView::Pending,
        ),
        Poll::Ready(_) => (
            in_state(HandshakeStateView::BothSidesClosed, max),
            io2,
            InboundPollView::Exhausted,
        ),
    }
}

/// Reading one notification once the handshake counts as sent. End of
/// stream moves straight on to closing our own side.
pub open spec fn poll_next_reading(max: u64, io: SocketView) -> (InSubstreamView, SocketView,
    InboundPollView) {
    let (io2, r) = read_frame_step(io, max);
    match r {
        FrameReadView::Frame(payload) => (
            in_state(HandshakeStateView::Sent, max),
            io2,
            InboundPollView::Item(payload),
        ),
        FrameReadView::Pending => (
            in_state(HandshakeStateView::Sent, max),
            io2,
            InboundPollView::Pending,
        ),
        FrameReadView::Failed(err) => (
            in_state(HandshakeStateView::Sent, max),
            io2,
            InboundPollView::Failed(err),
        ),
        FrameReadView::End => poll_next_closing(max, io2),
    }
}

/// Flushing the handshake; completion moves straight on to reading. A
/// flush failure surfaces with the handshake counted as sent.
pub open spec fn poll_next_flushing(max: u64, io: SocketView) -> (InSubstreamView, SocketView,
    InboundPollView) {
    let (io2, r) = flush_step(io);
    match r {
        Poll::Pending => (in_state(HandshakeStateView::Flush, max), io2, InboundPollView::Pending),
        Poll::Ready(Result::Ok(_)) => poll_next_reading(max, io2),
        Poll::Ready(Result::Err(err)) => (
            in_state(HandshakeStateView::Sent, max),
            io2,
            InboundPollView::Failed(FrameError::Io(err)),
        ),
    }
}

/// Pushing the handshake into the socket. Backpressure re-enters
/// `PendingSend` untouched; success moves straight on to flushing.
pub open spec fn poll_next_sending(msg: Seq<u8>, max: u64, io: SocketView) -> (InSubstreamView,
    SocketView, InboundPollView) {
    if !io.write_ready {
        (in_state(HandshakeStateView::PendingSend(msg), max), io, InboundPollView::Pending)
    } else {
        let (io2, r) = send_frame_step(io, msg, max);
        match r {
            Result::Err(err) => (
                in_state(HandshakeStateView::Flush, max),
                io2,
                InboundPollView::Failed(FrameError::Io(err)),
            ),
            Result::Ok(_) => poll_next_flushing(max, io2),
        }
    }
}

/// One whole poll for the next notification: advance the handshake-send
/// state as far as the transport allows, then try to surface one frame.
/// Before the owner supplies a handshake nothing is read at all.
pub open spec fn poll_next_spec(s: InSubstreamView, io: SocketView) -> (InSubstreamView,
    SocketView, InboundPollView) {
    let max = s.max_notification_size;
    match s.handshake {
        HandshakeStateView::NotSent => (s, io, InboundPollView::Pending),
        HandshakeStateView::PendingSend(msg) => poll_next_sending(msg, max, io),
        HandshakeStateView::Flush => poll_next_flushing(max, io),
        HandshakeStateView::Sent => poll_next_reading(max, io),
        HandshakeStateView::ClosingInResponseToRemote => poll_next_closing(max, io),
        HandshakeStateView::BothSidesClosed => (s, io, InboundPollView::Exhausted),
    }
}

/// The flushing tail of one handshake-only poll.
pub open spec fn poll_process_flushing(max: u64, io: SocketView) -> (InSubstreamView, SocketView,
    Poll<Result<(), IoError>>) {
    let (io2, r) = flush_step(io);
    match r {
        Poll::Pending => (in_state(HandshakeStateView::Flush, max), io2, Poll::Pending),
        Poll::Ready(Result::Ok(_)) => (
            in_state(HandshakeStateView::Sent, max),
            io2,
            Poll::Ready(Result::Ok(())),
        ),
        Poll::Ready(Result::Err(err)) => (
            in_state(HandshakeStateView::Sent, max),
            io2,
            Poll::Ready(Result::Err(err)),
        ),
    }
}

/// One handshake-only poll: drive the handshake exactly as a full poll
/// would, but never read a notification. Every state at or past `Sent`
/// reports completion at once.
pub open spec fn poll_process_spec(s: InSubstreamView, io: SocketView) -> (InSubstreamView,
    SocketView, Poll<Result<(), IoError>>) {
    let max = s.max_notification_size;
    match s.handshake {
        HandshakeStateView::PendingSend(msg) => if !io.write_ready {
            (s, io, Poll::Pending)
        } else {
            let (io2, r) = send_frame_step(io, msg, max);
            match r {
                Result::Err(err) => (
                    in_state(HandshakeStateView::Flush, max),
                    io2,
                    Poll::Ready(Result::Err(err)),
                ),
                Result::Ok(_) => poll_process_flushing(max, io2),
            }
        },
        HandshakeStateView::Flush => poll_process_flushing(max, io),
        _ => (s, io, Poll::Ready(Result::Ok(()))),
    }
}

impl NotificationsInSubstream {
    /// A substream in the given handshake-send state, delivering frames of
    /// at most `max_notification_size` bytes.
    pub fn new(max_notification_size: u64, handshake: NotificationsInSubstreamHandshake) -> (s:
        Self)
        ensures
            s@ == (InSubstreamView { handshake: handshake@, max_notification_size }),
    {
        NotificationsInSubstream { handshake, max_notification_size }
    }

    /// Supply the handshake message that tells the remote we accept the
    /// substream. Callable once: a second call is ignored and changes
    /// nothing, since the first message may already be on the wire.
    pub fn send_handshake(&mut self, message: Vec<u8>)
        ensures
            old(self)@.handshake == HandshakeStateView::NotSent ==> final(self)@ == (
            InSubstreamView {
                handshake: HandshakeStateView::PendingSend(message@),
                ..old(self)@
            }),
            old(self)@.handshake != HandshakeStateView::NotSent ==> final(self)@ == old(self)@,
    {
        if matches!(self.handshake, NotificationsInSubstreamHandshake::NotSent) {
            self.handshake = NotificationsInSubstreamHandshake::PendingSend(message);
        }
    }

    /// Take the handshake-send state out, leaving `Sent` in its place
    /// while the next state is computed.
    fn take_state(&mut self) -> (state: NotificationsInSubstreamHandshake)
        ensures
            state@ == old(self)@.handshake,
            final(self)@ == (InSubstreamView { handshake: HandshakeStateView::Sent, ..old(self)@ }),
    {
        let mut state = NotificationsInSubstreamHandshake::Sent;
        core::mem::swap(&mut state, &mut self.handshake);
        state
    }

    /// Closing tail of a poll: try to close our writing side in response
    /// to the remote.
    fn drive_close(&mut self, io: &mut Socket) -> (r: InboundPoll)
        requires
            old(self)@.handshake == HandshakeStateView::ClosingInResponseToRemote,
        ensures
            (final(self)@, final(io)@, r@) == poll_next_closing(
                old(self)@.max_notification_size,
                old(io)@,
            ),
    {
        match io.poll_close() {
            Poll::Pending => InboundPoll::Pending,
            Poll::Ready(_) => {
                self.handshake = NotificationsInSubstreamHandshake::BothSidesClosed;
                InboundPoll::Exhausted
            },
        }
    }

    /// Reading tail of a poll: try to surface one notification frame.
    fn drive_read(&mut self, io: &mut Socket) -> (r: InboundPoll)
        requires
            old(self)@.handshake == HandshakeStateView::Sent,
        ensures
            (final(self)@, final(io)@, r@) == poll_next_reading(
                old(self)@.max_notification_size,
                old(io)@,
            ),
    {
        match io.poll_read_frame(self.max_notification_size) {
            FrameRead::Frame(payload) => InboundPoll::Item(payload),
            FrameRead::Pending => InboundPoll::Pending,
            FrameRead::Failed(err) => InboundPoll::Failed(err),
            FrameRead::End => {
                self.handshake = NotificationsInSubstreamHandshake::ClosingInResponseToRemote;
                self.drive_close(io)
            },
        }
    }

    /// Flushing tail of a poll: try to flush the handshake, then read.
    fn drive_flush(&mut self, io: &mut Socket) -> (r: InboundPoll)
        requires
            old(self)@.handshake == HandshakeStateView::Flush,
        ensures
            (final(self)@, final(io)@, r@) == poll_next_flushing(
                old(self)@.max_notification_size,
                old(io)@,
            ),
    {
        match io.poll_flush() {
            Poll::Pending => InboundPoll::Pending,
            Poll::Ready(Result::Ok(_)) => {
                self.handshake = NotificationsInSubstreamHandshake::Sent;
                self.drive_read(io)
            },
            Poll::Ready(Result::Err(err)) => {
                self.handshake = NotificationsInSubstreamHandshake::Sent;
                InboundPoll::Failed(FrameError::Io(err))
            },
        }
    }

    /// One poll for the next notification.
    pub fn poll_next(&mut self, io: &mut Socket) -> (r: InboundPoll)
        ensures
            (final(self)@, final(io)@, r@) == poll_next_spec(old(self)@, old(io)@),
    {
        let state = self.take_state();
        match state {
            NotificationsInSubstreamHandshake::NotSent => {
                self.handshake = NotificationsInSubstreamHandshake::NotSent;
                InboundPoll::Pending
            },
            NotificationsInSubstreamHandshake::PendingSend(msg) => {
                if !io.is_write_ready() {
                    self.handshake = NotificationsInSubstreamHandshake::PendingSend(msg);
                    InboundPoll::Pending
                } else {
                    self.handshake = NotificationsInSubstreamHandshake::Flush;
                    match io.send_frame(&msg, self.max_notification_size) {
                        Result::Err(err) => InboundPoll::Failed(FrameError::Io(err)),
                        Result::Ok(_) => self.drive_flush(io),
                    }
                }
            },
            NotificationsInSubstreamHandshake::Flush => {
                self.handshake = NotificationsInSubstreamHandshake::Flush;
                self.drive_flush(io)
            },
            NotificationsInSubstreamHandshake::Sent => self.drive_read(io),
            NotificationsInSubstreamHandshake::ClosingInResponseToRemote => {
                self.handshake = NotificationsInSubstreamHandshake::ClosingInResponseToRemote;
                self.drive_close(io)
            },
            NotificationsInSubstreamHandshake::BothSidesClosed => {
                self.handshake = NotificationsInSubstreamHandshake::BothSidesClosed;
                InboundPoll::Exhausted
            },
        }
    }

    /// One handshake-only poll: drives the handshake exactly as
    /// [`Self::poll_next`] would, but never surfaces a notification.
    pub fn poll_process(&mut self, io: &mut Socket) -> (r: Poll<Result<(), IoError>>)
        ensures
            (final(self)@, final(io)@, r) == poll_process_spec(old(self)@, old(io)@),
    {
        let state = self.take_state();
        match state {
            NotificationsInSubstreamHandshake::PendingSend(msg) => {
                if !io.is_write_ready() {
                    self.handshake = NotificationsInSubstreamHandshake::PendingSend(msg);
                    Poll::Pending
                } else {
                    self.handshake = NotificationsInSubstreamHandshake::Flush;
                    match io.send_frame(&msg, self.max_notification_size) {
                        Result::Err(err) => Poll::Ready(Result::Err(err)),
                        Result::Ok(_) => self.process_flush(io),
                    }
                }
            },
            NotificationsInSubstreamHandshake::Flush => {
                self.handshake = NotificationsInSubstreamHandshake::Flush;
                self.process_flush(io)
            },
            NotificationsInSubstreamHandshake::NotSent => {
                self.handshake = NotificationsInSubstreamHandshake::NotSent;
                Poll::Ready(Result::Ok(()))
            },
            NotificationsInSubstreamHandshake::Sent => Poll::Ready(Result::Ok(())),
            NotificationsInSubstreamHandshake::ClosingInResponseToRemote => {
                self.handshake = NotificationsInSubstreamHandshake::ClosingInResponseToRemote;
                Poll::Ready(Result::Ok(()))
            },
            NotificationsInSubstreamHandshake::BothSidesClosed => {
                self.handshake = NotificationsInSubstreamHandshake::BothSidesClosed;
                Poll::Ready(Result::Ok(()))
            },
        }
    }

    /// Flushing tail of a handshake-only poll.
    fn process_flush(&mut self, io: &mut Socket) -> (r: Poll<Result<(), IoError>>)
        requires
            old(self)@.handshake == HandshakeStateView::Flush,
        ensures
            (final(self)@, final(io)@, r) == poll_process_flushing(
                old(self)@.max_notification_size,
                old(io)@,
            ),
    {
        match io.poll_flush() {
            Poll::Pending => Poll::Pending,
            Poll::Ready(Result::Ok(_)) => {
                self.handshake = NotificationsInSubstreamHandshake::Sent;
                Poll::Ready(Result::Ok(()))
            },
            Poll::Ready(Result::Err(err)) => {
                self.handshake = NotificationsInSubstreamHandshake::Sent;
                Poll::Ready(Result::Err(err))
            },
        }
    }
}

/// A poll in the terminal state changes nothing and reports exhaustion,
/// forever: no notification is ever surfaced past this point.
pub proof fn lemma_exhausted_is_terminal(s: InSubstreamView, io: SocketView)
    requires
        s.handshake == HandshakeStateView::BothSidesClosed,
    ensures
        poll_next_spec(s, io) == (s, io, InboundPollView::Exhausted),
{
}

/// Before the owner supplies a handshake, a poll reports "not ready"
/// without touching the socket: nothing is read ahead.
pub proof fn lemma_nothing_read_before_handshake(s: InSubstreamView, io: SocketView)
    requires
        s.handshake == HandshakeStateView::NotSent,
    ensures
        poll_next_spec(s, io) == (s, io, InboundPollView::Pending),
{
}

/// A notification is surfaced only at a point where the handshake counts
/// as sent: never before it went out, and never once the close of the
/// stream has begun.
pub proof fn lemma_item_only_while_sent(s: InSubstreamView, io: SocketView)
    ensures
        (poll_next_spec(s, io).2 matches InboundPollView::Item(_)) ==> poll_next_spec(
            s,
            io,
        ).0.handshake == HandshakeStateView::Sent,
        s.handshake == HandshakeStateView::ClosingInResponseToRemote || s.handshake
            == HandshakeStateView::BothSidesClosed ==> (poll_next_spec(s, io).2
            == InboundPollView::Pending || poll_next_spec(s, io).2 == InboundPollView::Exhausted),
{
}

/// Send-then-receive round trip: a notification within the limit whose
/// frame has arrived, with anything behind it, is surfaced exactly as it
/// was sent, its frame alone is consumed, and later frames stay for the
/// polls that follow — order over one substream is kept.
pub proof fn lemma_notification_roundtrip(
    payload: Seq<u8>,
    rest: Seq<u8>,
    s: InSubstreamView,
    io: SocketView,
)
    requires
        s.handshake == HandshakeStateView::Sent,
        payload.len() <= s.max_notification_size,
        io.rx == crate::codec::frame_encoding(payload) + rest,
    ensures
        poll_next_spec(s, io) == (
            s,
            crate::transport::with_rx_skipped(
                io,
                crate::codec::frame_encoding(payload).len() as int,
            ),
            InboundPollView::Item(payload),
        ),
        poll_next_spec(s, io).1.rx == rest,
{
    crate::codec::lemma_frame_roundtrip(payload, rest, s.max_notification_size);
}

/// The handshake-send state only ever moves forward: `PendingSend` and
/// `Flush` are re-entered under backpressure, never regressed to, and
/// nothing regresses from `Sent`.
pub proof fn lemma_handshake_state_monotone(s: InSubstreamView, io: SocketView)
    ensures
        handshake_rank(poll_next_spec(s, io).0.handshake) >= handshake_rank(s.handshake),
        handshake_rank(poll_process_spec(s, io).0.handshake) >= handshake_rank(s.handshake),
{
}

} // verus!
