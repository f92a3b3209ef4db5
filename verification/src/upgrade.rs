//! The one-shot upgrade negotiators.
//!
//! Once the multiplexer has opened a substream and a protocol name has
//! been negotiated, one of these runs exactly once. The inbound negotiator
//! reads the remote's varint-prefixed initial message, capped at
//! [`MAX_HANDSHAKE_SIZE`] bytes, and sends nothing back by itself: the
//! owner decides later whether to answer, and refuses by dropping the
//! substream instead. The outbound negotiator writes its own
//! varint-prefixed initial message, flushes, reads the remote's answer
//! under the same cap, and reports whether the negotiated name was the
//! main one or a fallback.
//!
//! Each negotiator is a small poll-driven machine: polling it either
//! finishes with the long-lived substream plus the remote's handshake
//! bytes, or hands the negotiator back to be polled again once the
//! transport makes progress possible.

use vstd::prelude::*;
use crate::codec::frame_encoding;
use crate::error::{IoError, NotificationsHandshakeError};
use crate::error::handshake_error_of_frame_error;
use crate::inbound::{
    in_state, HandshakeStateView, NotificationsInSubstream, NotificationsInSubstreamHandshake,
};
use crate::outbound::{NotificationsOutSubstream, OutSubstreamView};
use crate::transport::{
    flush_step, read_frame_step, with_buf_appended, with_rx_skipped, FrameRead, FrameReadView,
    Poll, Socket, SocketView,
};
use crate::types::{name_option_view, PeerId, ProtocolName};

verus! {

/// Maximum allowed size of the two handshake messages, in bytes.
pub const MAX_HANDSHAKE_SIZE: u64 = 1024;

/// What one attempt to read a handshake message yields.
pub enum HandshakeRead {
    /// The message has not fully arrived; try again later.
    Pending,
    /// The remote's handshake bytes, consumed from the socket.
    Done(Seq<u8>),
    /// Negotiation failed: the stream ended first (refusal), the declared
    /// length broke the cap, or the prefix was malformed.
    Failed(NotificationsHandshakeError),
}

/// One attempt to read a handshake message off the socket: one frame under
/// the handshake cap, every failure mapped into the negotiation taxonomy.
pub open spec fn handshake_read_step(io: SocketView) -> (SocketView, HandshakeRead) {
    let (io2, r) = read_frame_step(io, MAX_HANDSHAKE_SIZE);
    match r {
        FrameReadView::Frame(h) => (io2, HandshakeRead::Done(h)),
        FrameReadView::Pending => (io2, HandshakeRead::Pending),
        FrameReadView::End => (
            io2,
            HandshakeRead::Failed(NotificationsHandshakeError::Io(IoError::UnexpectedEof)),
        ),
        FrameReadView::Failed(err) => (
            io2,
            HandshakeRead::Failed(handshake_error_of_frame_error(err)),
        ),
    }
}

/// Round trip of a handshake: a message within the cap, framed by the
/// sending negotiator, is read back losslessly by the receiving one — the
/// receiver observes exactly the bytes that were sent, whichever side
/// sent them, and consumes exactly their frame.
pub proof fn lemma_handshake_roundtrip(h: Seq<u8>, rest: Seq<u8>, io: SocketView)
    requires
        h.len() <= MAX_HANDSHAKE_SIZE,
        io.rx == frame_encoding(h) + rest,
    ensures
        handshake_read_step(io).1 == HandshakeRead::Done(h),
        handshake_read_step(io).0 == with_rx_skipped(io, frame_encoding(h).len() as int),
        handshake_read_step(io).0.rx == rest,
{
    crate::codec::lemma_frame_roundtrip(h, rest, MAX_HANDSHAKE_SIZE);
}

/// A handshake above the cap is refused by the receiving side as a size
/// violation, as soon as the length prefix itself has been read and
/// whatever follows it: no payload byte is waited for.
pub proof fn lemma_oversized_handshake_refused(h: Seq<u8>, rest: Seq<u8>, io: SocketView)
    requires
        h.len() > MAX_HANDSHAKE_SIZE,
        h.len() < 0x1_0000_0000_0000_0000,
        io.rx == frame_encoding(h) + rest,
    ensures
        handshake_read_step(io).1 == HandshakeRead::Failed(
            NotificationsHandshakeError::TooLarge {
                requested: h.len() as u64,
                max: MAX_HANDSHAKE_SIZE,
            },
        ),
        handshake_read_step(io).0 == io,
{
    let n: u64 = h.len() as u64;
    assert(io.rx =~= crate::varint::varint_encoding(n as nat) + (h + rest));
    crate::varint::lemma_varint_roundtrip(n, h + rest);
}

/// Refusal is observable: when the remote closes the substream without
/// ever answering, the waiting side's handshake read fails with an
/// end-of-stream error instead of hanging.
pub proof fn lemma_refusal_is_observed(io: SocketView)
    requires
        io.rx_closed,
        io.rx.len() == 0,
    ensures
        handshake_read_step(io).1 == HandshakeRead::Failed(
            NotificationsHandshakeError::Io(IoError::UnexpectedEof),
        ),
        handshake_read_step(io).0 == io,
{
    assert(crate::varint::parse_varint(io.rx) == crate::varint::VarintParse::NeedMore);
}

/// Upgrade that accepts a substream, lets the owner send back a status
/// message, then becomes a unidirectional stream of messages.
#[derive(Debug)]
pub struct NotificationsIn {
    protocol_names: Vec<ProtocolName>,
    max_notification_size: u64,
}

impl NotificationsIn {
    /// A new potential upgrade: the main protocol name first, then the
    /// accepted fallbacks.
    pub fn new(
        main_protocol_name: ProtocolName,
        fallback_names: Vec<ProtocolName>,
        max_notification_size: u64,
    ) -> (r: Self)
        ensures
            r.spec_protocol_names() == fallback_names@.insert(0, main_protocol_name),
            r.spec_max_notification_size() == max_notification_size,
    {
        let mut protocol_names = fallback_names;
        protocol_names.insert(0, main_protocol_name);
        NotificationsIn { protocol_names, max_notification_size }
    }

    /// The protocol names this upgrade negotiates, main name first.
    pub closed spec fn spec_protocol_names(&self) -> Seq<ProtocolName> {
        self.protocol_names@
    }

    /// The configured maximum size of one notification.
    pub closed spec fn spec_max_notification_size(&self) -> u64 {
        self.max_notification_size
    }

    /// The protocol names to hand to negotiation, main name first.
    pub fn protocol_info(&self) -> (r: Vec<ProtocolName>)
        ensures
            r@.len() == self.spec_protocol_names().len(),
            forall|i: int|
                0 <= i < r@.len() ==> (#[trigger] r@[i])@ == self.spec_protocol_names()[i]@,
    {
        let mut r: Vec<ProtocolName> = Vec::new();
        let mut i: usize = 0;
        while i < self.protocol_names.len()
            invariant
                0 <= i <= self.protocol_names@.len(),
                r@.len() == i,
                forall|j: int|
                    0 <= j < i ==> (#[trigger] r@[j])@ == self.spec_protocol_names()[j]@,
            decreases self.protocol_names@.len() - i,
        {
            r.push(self.protocol_names[i].clone());
            i = i + 1;
        }
        r
    }

    /// Start the inbound upgrade on a freshly negotiated substream. The
    /// negotiated name plays no further part on this side.
    pub fn upgrade_inbound(self, _negotiated_name: ProtocolName) -> (fut: NotificationsInUpgrade)
        ensures
            fut@ == self.spec_max_notification_size(),
    {
        NotificationsInUpgrade { max_notification_size: self.max_notification_size }
    }
}

/// An inbound upgrade in progress: the remote's initial message has not
/// been read yet.
#[derive(Debug)]
pub struct NotificationsInUpgrade {
    max_notification_size: u64,
}

impl View for NotificationsInUpgrade {
    type V = u64;

    closed spec fn view(&self) -> u64 {
        self.max_notification_size
    }
}

/// Yielded by [`NotificationsIn`] after a successful upgrade.
#[derive(Debug)]
pub struct NotificationsInOpen {
    /// Handshake sent by the remote.
    pub handshake: Vec<u8>,
    /// The long-lived substream delivering the messages.
    pub substream: NotificationsInSubstream,
}

/// One poll of an inbound upgrade: finished, or to be polled again.
#[derive(Debug)]
pub enum InboundUpgradeStep {
    /// The initial message has not fully arrived; poll again later.
    Pending(NotificationsInUpgrade),
    /// The upgrade finished: the opened substream, or why it failed.
    Complete(Result<NotificationsInOpen, NotificationsHandshakeError>),
}

/// What one poll of the inbound upgrade does. Nothing is ever written:
/// answering, or refusing by dropping, is the owner's decision later.
pub open spec fn in_upgrade_post(
    max: u64,
    io_in: SocketView,
    io_out: SocketView,
    r: InboundUpgradeStep,
) -> bool {
    io_out == handshake_read_step(io_in).0 && match handshake_read_step(io_in).1 {
        HandshakeRead::Pending => r matches InboundUpgradeStep::Pending(fut) && fut@ == max,
        HandshakeRead::Done(h) => r matches InboundUpgradeStep::Complete(Result::Ok(open))
            && open.handshake@ == h && open.substream@ == in_state(
            HandshakeStateView::NotSent,
            max,
        ),
        HandshakeRead::Failed(err) => r == InboundUpgradeStep::Complete(Result::Err(err)),
    }
}

impl NotificationsInUpgrade {
    /// One poll: read the remote's initial message if it is all there. A
    /// message whose declared length breaks the cap fails at once, as soon
    /// as the prefix itself has been read. An ended stream is an I/O
    /// failure. Nothing is sent back.
    pub fn poll_upgrade(self, io: &mut Socket) -> (r: InboundUpgradeStep)
        ensures
            in_upgrade_post(self@, old(io)@, final(io)@, r),
    {
        match io.poll_read_frame(MAX_HANDSHAKE_SIZE) {
            FrameRead::Frame(handshake) => InboundUpgradeStep::Complete(
                Result::Ok(
                    NotificationsInOpen {
                        handshake,
                        substream: NotificationsInSubstream::new(
                            self.max_notification_size,
                            NotificationsInSubstreamHandshake::NotSent,
                        ),
                    },
                ),
            ),
            FrameRead::Pending => InboundUpgradeStep::Pending(self),
            FrameRead::End => InboundUpgradeStep::Complete(
                Result::Err(NotificationsHandshakeError::Io(IoError::UnexpectedEof)),
            ),
            FrameRead::Failed(err) => InboundUpgradeStep::Complete(
                Result::Err(NotificationsHandshakeError::from(err)),
            ),
        }
    }
}

/// Upgrade that opens a substream, sends an initial message, waits for the
/// remote to accept with a status message, then becomes a unidirectional
/// sink of data.
#[derive(Debug)]
pub struct NotificationsOut {
    protocol_names: Vec<ProtocolName>,
    initial_message: Vec<u8>,
    max_notification_size: u64,
    peer_id: PeerId,
}

impl NotificationsOut {
    #[verifier::type_invariant]
    spec fn wf(self) -> bool {
        self.protocol_names@.len() >= 1
    }

    /// A new potential upgrade. An initial message above
    /// [`MAX_HANDSHAKE_SIZE`] is accepted here on purpose: the encoder
    /// does not forbid sending it, and the remote rejects it on read.
    pub fn new(
        main_protocol_name: ProtocolName,
        fallback_names: Vec<ProtocolName>,
        initial_message: Vec<u8>,
        max_notification_size: u64,
        peer_id: PeerId,
    ) -> (r: Self)
        ensures
            r.spec_protocol_names() == fallback_names@.insert(0, main_protocol_name),
            r.spec_initial_message() == initial_message@,
            r.spec_max_notification_size() == max_notification_size,
            r.spec_peer_id() == peer_id@,
    {
        let mut protocol_names = fallback_names;
        protocol_names.insert(0, main_protocol_name);
        NotificationsOut { protocol_names, initial_message, max_notification_size, peer_id }
    }

    /// The protocol names this upgrade negotiates, main name first.
    pub closed spec fn spec_protocol_names(&self) -> Seq<ProtocolName> {
        self.protocol_names@
    }

    /// The initial message sent when the handshake starts.
    pub closed spec fn spec_initial_message(&self) -> Seq<u8> {
        self.initial_message@
    }

    /// The configured maximum size of one notification.
    pub closed spec fn spec_max_notification_size(&self) -> u64 {
        self.max_notification_size
    }

    /// The identity of the remote peer.
    pub closed spec fn spec_peer_id(&self) -> Seq<u8> {
        self.peer_id@
    }

    /// The protocol names to hand to negotiation, main name first.
    pub fn protocol_info(&self) -> (r: Vec<ProtocolName>)
        ensures
            r@.len() == self.spec_protocol_names().len(),
            forall|i: int|
                0 <= i < r@.len() ==> (#[trigger] r@[i])@ == self.spec_protocol_names()[i]@,
    {
        let mut r: Vec<ProtocolName> = Vec::new();
        let mut i: usize = 0;
        while i < self.protocol_names.len()
            invariant
                0 <= i <= self.protocol_names@.len(),
                r@.len() == i,
                forall|j: int|
                    0 <= j < i ==> (#[trigger] r@[j])@ == self.spec_protocol_names()[j]@,
            decreases self.protocol_names@.len() - i,
        {
            r.push(self.protocol_names[i].clone());
            i = i + 1;
        }
        r
    }

    /// Start the outbound upgrade on a freshly negotiated substream,
    /// remembering whether `negotiated_name` was the main name or one of
    /// the fallbacks.
    pub fn upgrade_outbound(self, negotiated_name: ProtocolName) -> (fut: NotificationsOutUpgrade)
        ensures
            fut@ == (OutUpgradeView {
                stage: OutUpgradeStageView::SendHandshake(self.spec_initial_message()),
                max_notification_size: self.spec_max_notification_size(),
                peer_id: self.spec_peer_id(),
                negotiated_fallback: if negotiated_name@ == self.spec_protocol_names()[0]@ {
                    Option::None
                } else {
                    Option::Some(negotiated_name@)
                },
            }),
    {
        proof {
            use_type_invariant(&self);
        }
        let NotificationsOut { protocol_names, initial_message, max_notification_size, peer_id } =
            self;
        let negotiated_fallback = if negotiated_name.eq(&protocol_names[0]) {
            Option::None
        } else {
            Option::Some(negotiated_name)
        };
        NotificationsOutUpgrade {
            stage: OutUpgradeStage::SendHandshake(initial_message),
            max_notification_size,
            peer_id,
            negotiated_fallback,
        }
    }
}

/// Where an outbound upgrade stands.
#[derive(Debug)]
pub enum OutUpgradeStage {
    /// The initial message still has to be pushed into the socket.
    SendHandshake(Vec<u8>),
    /// The initial message is written and still has to be flushed.
    FlushHandshake,
    /// Waiting for the remote's handshake to arrive.
    AwaitResponse,
}

/// The abstract value of an outbound upgrade's stage.
pub enum OutUpgradeStageView {
    SendHandshake(Seq<u8>),
    FlushHandshake,
    AwaitResponse,
}

impl View for OutUpgradeStage {
    type V = OutUpgradeStageView;

    open spec fn view(&self) -> OutUpgradeStageView {
        match self {
            OutUpgradeStage::SendHandshake(msg) => OutUpgradeStageView::SendHandshake(msg@),
            OutUpgradeStage::FlushHandshake => OutUpgradeStageView::FlushHandshake,
            OutUpgradeStage::AwaitResponse => OutUpgradeStageView::AwaitResponse,
        }
    }
}

/// The abstract state of an outbound upgrade in progress.
pub struct OutUpgradeView {
    pub stage: OutUpgradeStageView,
    pub max_notification_size: u64,
    pub peer_id: Seq<u8>,
    pub negotiated_fallback: Option<Seq<u8>>,
}

/// An outbound upgrade in progress.
#[derive(Debug)]
pub struct NotificationsOutUpgrade {
    stage: OutUpgradeStage,
    max_notification_size: u64,
    peer_id: PeerId,
    negotiated_fallback: Option<ProtocolName>,
}

impl View for NotificationsOutUpgrade {
    type V = OutUpgradeView;

    closed spec fn view(&self) -> OutUpgradeView {
        OutUpgradeView {
            stage: self.stage@,
            max_notification_size: self.max_notification_size,
            peer_id: self.peer_id@,
            negotiated_fallback: name_option_view(self.negotiated_fallback),
        }
    }
}

/// Yielded by [`NotificationsOut`] after a successful upgrade.
#[derive(Debug)]
pub struct NotificationsOutOpen {
    /// Handshake returned by the remote.
    pub handshake: Vec<u8>,
    /// `None` when the negotiated name was the main one; the fallback
    /// otherwise.
    pub negotiated_fallback: Option<ProtocolName>,
    /// The long-lived substream taking the messages.
    pub substream: NotificationsOutSubstream,
}

/// One poll of an outbound upgrade: finished, or to be polled again.
#[derive(Debug)]
pub enum OutboundUpgradeStep {
    /// The transport has not let the upgrade finish; poll again later.
    Pending(NotificationsOutUpgrade),
    /// The upgrade finished: the opened substream, or why it failed.
    Complete(Result<NotificationsOutOpen, NotificationsHandshakeError>),
}

/// What the waiting-for-response tail of an outbound upgrade does.
pub open spec fn out_await_post(
    io_in: SocketView,
    io_out: SocketView,
    r: OutboundUpgradeStep,
    max: u64,
    peer: Seq<u8>,
    fallback: Option<Seq<u8>>,
) -> bool {
    io_out == handshake_read_step(io_in).0 && match handshake_read_step(io_in).1 {
        HandshakeRead::Pending => r matches OutboundUpgradeStep::Pending(fut) && fut@ == (
        OutUpgradeView {
            stage: OutUpgradeStageView::AwaitResponse,
            max_notification_size: max,
            peer_id: peer,
            negotiated_fallback: fallback,
        }),
        HandshakeRead::Done(h) => r matches OutboundUpgradeStep::Complete(Result::Ok(open))
            && open.handshake@ == h && name_option_view(open.negotiated_fallback) == fallback
            && open.substream@ == (OutSubstreamView {
            peer_id: peer,
            max_notification_size: max,
        }),
        HandshakeRead::Failed(err) => r == OutboundUpgradeStep::Complete(Result::Err(err)),
    }
}

/// What the flushing tail of an outbound upgrade does: a completed flush
/// moves straight on to reading the response in the same poll.
pub open spec fn out_flush_post(
    io_in: SocketView,
    io_out: SocketView,
    r: OutboundUpgradeStep,
    max: u64,
    peer: Seq<u8>,
    fallback: Option<Seq<u8>>,
) -> bool {
    let (io2, flushed) = flush_step(io_in);
    match flushed {
        Poll::Pending => io_out == io2 && (r matches OutboundUpgradeStep::Pending(fut) && fut@ == (
        OutUpgradeView {
            stage: OutUpgradeStageView::FlushHandshake,
            max_notification_size: max,
            peer_id: peer,
            negotiated_fallback: fallback,
        })),
        Poll::Ready(Result::Err(err)) => io_out == io2 && r == OutboundUpgradeStep::Complete(
            Result::Err(NotificationsHandshakeError::Io(err)),
        ),
        Poll::Ready(Result::Ok(_)) => out_await_post(io2, io_out, r, max, peer, fallback),
    }
}

/// What one whole poll of an outbound upgrade does, from any stage.
pub open spec fn out_upgrade_post(
    pre: OutUpgradeView,
    io_in: SocketView,
    io_out: SocketView,
    r: OutboundUpgradeStep,
) -> bool {
    match pre.stage {
        OutUpgradeStageView::SendHandshake(msg) => if io_in.tx_closed {
            io_out == io_in && r == OutboundUpgradeStep::Complete(
                Result::Err(NotificationsHandshakeError::Io(IoError::Closed)),
            )
        } else if !io_in.write_ready {
            io_out == io_in && (r matches OutboundUpgradeStep::Pending(fut) && fut@ == pre)
        } else {
            out_flush_post(
                with_buf_appended(io_in, frame_encoding(msg)),
                io_out,
                r,
                pre.max_notification_size,
                pre.peer_id,
                pre.negotiated_fallback,
            )
        },
        OutUpgradeStageView::FlushHandshake => out_flush_post(
            io_in,
            io_out,
            r,
            pre.max_notification_size,
            pre.peer_id,
            pre.negotiated_fallback,
        ),
        OutUpgradeStageView::AwaitResponse => out_await_post(
            io_in,
            io_out,
            r,
            pre.max_notification_size,
            pre.peer_id,
            pre.negotiated_fallback,
        ),
    }
}

impl NotificationsOutUpgrade {
    /// Waiting tail of a poll: read the remote's handshake if it is all
    /// there, under the same cap and failure behaviour as the inbound
    /// side. An ended stream here is how the remote's refusal shows.
    fn await_response(
        max_notification_size: u64,
        peer_id: PeerId,
        negotiated_fallback: Option<ProtocolName>,
        io: &mut Socket,
    ) -> (r: OutboundUpgradeStep)
        ensures
            out_await_post(
                old(io)@,
                final(io)@,
                r,
                max_notification_size,
                peer_id@,
                name_option_view(negotiated_fallback),
            ),
    {
        match io.poll_read_frame(MAX_HANDSHAKE_SIZE) {
            FrameRead::Frame(handshake) => OutboundUpgradeStep::Complete(
                Result::Ok(
                    NotificationsOutOpen {
                        handshake,
                        negotiated_fallback,
                        substream: NotificationsOutSubstream::new(peer_id, max_notification_size),
                    },
                ),
            ),
            FrameRead::Pending => OutboundUpgradeStep::Pending(
                NotificationsOutUpgrade {
                    stage: OutUpgradeStage::AwaitResponse,
                    max_notification_size,
                    peer_id,
                    negotiated_fallback,
                },
            ),
            FrameRead::End => OutboundUpgradeStep::Complete(
                Result::Err(NotificationsHandshakeError::Io(IoError::UnexpectedEof)),
            ),
            FrameRead::Failed(err) => OutboundUpgradeStep::Complete(
                Result::Err(NotificationsHandshakeError::from(err)),
            ),
        }
    }

    /// Flushing tail of a poll: flush the initial message, then wait for
    /// the response.
    fn flush_handshake(
        max_notification_size: u64,
        peer_id: PeerId,
        negotiated_fallback: Option<ProtocolName>,
        io: &mut Socket,
    ) -> (r: OutboundUpgradeStep)
        ensures
            out_flush_post(
                old(io)@,
                final(io)@,
                r,
                max_notification_size,
                peer_id@,
                name_option_view(negotiated_fallback),
            ),
    {
        match io.poll_flush() {
            Poll::Pending => OutboundUpgradeStep::Pending(
                NotificationsOutUpgrade {
                    stage: OutUpgradeStage::FlushHandshake,
                    max_notification_size,
                    peer_id,
                    negotiated_fallback,
                },
            ),
            Poll::Ready(Result::Err(err)) => OutboundUpgradeStep::Complete(
                Result::Err(NotificationsHandshakeError::Io(err)),
            ),
            Poll::Ready(Result::Ok(_)) => Self::await_response(
                max_notification_size,
                peer_id,
                negotiated_fallback,
                io,
            ),
        }
    }

    /// One poll: write and flush the varint-prefixed initial message, then
    /// read back the remote's handshake, all as far as the transport
    /// allows in one step.
    pub fn poll_upgrade(self, io: &mut Socket) -> (r: OutboundUpgradeStep)
        ensures
            out_upgrade_post(self@, old(io)@, final(io)@, r),
    {
        let NotificationsOutUpgrade { stage, max_notification_size, peer_id, negotiated_fallback }
            = self;
        match stage {
            OutUpgradeStage::SendHandshake(msg) => {
                if io.is_local_closed() {
                    return OutboundUpgradeStep::Complete(
                        Result::Err(NotificationsHandshakeError::Io(IoError::Closed)),
                    );
                }
                if !io.is_write_ready() {
                    return OutboundUpgradeStep::Pending(
                        NotificationsOutUpgrade {
                            stage: OutUpgradeStage::SendHandshake(msg),
                            max_notification_size,
                            peer_id,
                            negotiated_fallback,
                        },
                    );
                }
                match io.write_frame(&msg) {
                    Result::Ok(_) => {},
                    Result::Err(err) => {
                        return OutboundUpgradeStep::Complete(
                            Result::Err(NotificationsHandshakeError::Io(err)),
                        );
                    },
                }
                Self::flush_handshake(max_notification_size, peer_id, negotiated_fallback, io)
            },
            OutUpgradeStage::FlushHandshake => Self::flush_handshake(
                max_notification_size,
                peer_id,
                negotiated_fallback,
                io,
            ),
            OutUpgradeStage::AwaitResponse => Self::await_response(
                max_notification_size,
                peer_id,
                negotiated_fallback,
                io,
            ),
        }
    }
}

} // verus!
