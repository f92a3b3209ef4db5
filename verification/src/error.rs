//! The error taxonomy of the protocol.
//!
//! Transport failures are propagated verbatim and are not retried at this
//! layer. A handshake whose declared length exceeds the cap is a size
//! violation that ends negotiation at once. A length prefix that cannot be
//! decoded is as severe as a transport failure. On the outbound side only,
//! a substream that the remote ended is `Closed` (benign), while payload
//! arriving on the outbound-only channel is `UnexpectedData`: a protocol
//! violation, grounds for penalising the remote.

use vstd::prelude::*;

verus! {

/// A transport-level failure of the byte stream.
#[derive(Clone, Copy, Debug, PartialEq, Eq, Structural)]
pub enum IoError {
    /// Writing or flushing after the local writing side was closed.
    Closed,
    /// The remote ended the stream in the middle of the expected data.
    UnexpectedEof,
    /// An outgoing frame above the configured maximum payload length.
    OversizedFrame,
}

/// Why reading one frame from the stream failed.
#[derive(Clone, Copy, Debug, PartialEq, Eq, Structural)]
pub enum FrameError {
    /// The declared payload length exceeds the configured maximum.
    TooLarge { requested: u64, max: u64 },
    /// The length prefix is not a valid LEB128 integer.
    Malformed,
    /// The transport failed underneath the frame.
    Io(IoError),
}

/// Error produced while negotiating a notifications substream.
#[derive(Clone, Copy, Debug, PartialEq, Eq, Structural)]
pub enum NotificationsHandshakeError {
    /// I/O error on the substream.
    Io(IoError),
    /// Initial message or handshake was too large.
    TooLarge { requested: u64, max: u64 },
    /// Error while decoding the variable-length integer.
    VarintDecode,
}

/// Error produced by sending on a notifications out substream.
#[derive(Clone, Copy, Debug, PartialEq, Eq, Structural)]
pub enum NotificationsOutError {
    /// I/O error on the substream.
    Io(IoError),
    /// The substream was closed or reset by the remote: a benign end.
    Closed,
    /// The remote sent payload on this outbound-only channel: a protocol
    /// violation, and grounds for banning the remote.
    UnexpectedData,
}

/// How a failed frame read surfaces as a negotiation error.
pub open spec fn handshake_error_of_frame_error(err: FrameError) -> NotificationsHandshakeError {
    match err {
        FrameError::Io(e) => NotificationsHandshakeError::Io(e),
        FrameError::TooLarge { requested, max } => NotificationsHandshakeError::TooLarge {
            requested,
            max,
        },
        FrameError::Malformed => NotificationsHandshakeError::VarintDecode,
    }
}

impl From<FrameError> for NotificationsHandshakeError {
    /// A size violation stays a size violation, a bad prefix becomes a
    /// varint-decoding error, and everything else is transport I/O.
    fn from(err: FrameError) -> (r: Self) {
        match err {
            FrameError::Io(e) => NotificationsHandshakeError::Io(e),
            FrameError::TooLarge { requested, max } => NotificationsHandshakeError::TooLarge {
                requested,
                max,
            },
            FrameError::Malformed => NotificationsHandshakeError::VarintDecode,
        }
    }
}

impl vstd::std_specs::convert::FromSpecImpl<FrameError> for NotificationsHandshakeError {
    open spec fn obeys_from_spec() -> bool {
        true
    }

    open spec fn from_spec(err: FrameError) -> Self {
        handshake_error_of_frame_error(err)
    }
}

} // verus!
