//! End-to-end exercises of the notification substreams: the handshake
//! round-trip, refusal, size violations, and steady-state traffic between
//! an initiating and an accepting endpoint wired back to back.

use notifications::codec::encode_frame;
use notifications::error::{FrameError, IoError, NotificationsHandshakeError, NotificationsOutError};
use notifications::inbound::{InboundPoll, NotificationsInSubstream};
use notifications::outbound::NotificationsOutSubstream;
use notifications::transport::{Poll, Socket};
use notifications::types::{PeerId, ProtocolName};
use notifications::upgrade::{
    InboundUpgradeStep, NotificationsIn, NotificationsInOpen, NotificationsInUpgrade,
    NotificationsOut, NotificationsOutOpen, NotificationsOutUpgrade, OutboundUpgradeStep,
};

const PROTO_NAME: &str = "/test/proto/1";

fn proto(name: &str) -> ProtocolName {
    ProtocolName::new(name.as_bytes().to_vec())
}

/// Carry whatever one endpoint has flushed over to the other.
fn transfer(from: &mut Socket, to: &mut Socket) {
    let bytes = from.take_written();
    if !bytes.is_empty() {
        to.deliver(&bytes);
    }
}

/// Open the initiator side of a substream pair: returns the upgrade
/// waiting for the remote's handshake, with the initial message already
/// on the wire of `a`.
fn dial(a: &mut Socket, handshake: Vec<u8>) -> NotificationsOutUpgrade {
    let notifs_out = NotificationsOut::new(
        proto(PROTO_NAME),
        Vec::new(),
        handshake,
        1024 * 1024,
        PeerId::new(vec![7]),
    );
    let fut = notifs_out.upgrade_outbound(proto(PROTO_NAME));
    match fut.poll_upgrade(a) {
        OutboundUpgradeStep::Pending(fut) => fut,
        OutboundUpgradeStep::Complete(_) => panic!("no response can have arrived yet"),
    }
}

/// Accept the substream whose initial message waits in `b`.
fn listen(b: &mut Socket) -> (Vec<u8>, NotificationsInSubstream) {
    let notifs_in = NotificationsIn::new(proto(PROTO_NAME), Vec::new(), 1024 * 1024);
    let fut: NotificationsInUpgrade = notifs_in.upgrade_inbound(proto(PROTO_NAME));
    match fut.poll_upgrade(b) {
        InboundUpgradeStep::Complete(Ok(NotificationsInOpen { handshake, substream })) => {
            (handshake, substream)
        }
        other => panic!("inbound upgrade did not complete: {:?}", other),
    }
}

/// Finish the initiator's upgrade once the acceptor's answer is in `a`.
fn finish_dial(
    fut: NotificationsOutUpgrade,
    a: &mut Socket,
) -> Result<(Vec<u8>, NotificationsOutSubstream), NotificationsHandshakeError> {
    match fut.poll_upgrade(a) {
        OutboundUpgradeStep::Complete(Ok(NotificationsOutOpen {
            handshake,
            negotiated_fallback,
            substream,
        })) => {
            assert!(negotiated_fallback.is_none());
            Ok((handshake, substream))
        }
        OutboundUpgradeStep::Complete(Err(err)) => Err(err),
        OutboundUpgradeStep::Pending(_) => panic!("the answer was already delivered"),
    }
}

#[test]
fn basic_works() {
    let mut a = Socket::new();
    let mut b = Socket::new();

    let fut = dial(&mut a, b"initial message".to_vec());
    transfer(&mut a, &mut b);

    let (handshake, mut substream) = listen(&mut b);
    assert_eq!(handshake, b"initial message");
    substream.send_handshake(b"hello world".to_vec());
    assert!(matches!(substream.poll_next(&mut b), InboundPoll::Pending));
    transfer(&mut b, &mut a);

    let (handshake, out_substream) = finish_dial(fut, &mut a).unwrap();
    assert_eq!(handshake, b"hello world");

    out_substream
        .start_send(&mut a, &b"test message".to_vec())
        .unwrap();
    assert!(matches!(
        out_substream.poll_flush(&mut a),
        Poll::Ready(Ok(()))
    ));
    transfer(&mut a, &mut b);

    match substream.poll_next(&mut b) {
        InboundPoll::Item(msg) => assert_eq!(msg, b"test message"),
        other => panic!("no notification was surfaced: {:?}", other),
    }
}

#[test]
fn empty_handshake() {
    // Check that everything still works when the handshake messages are
    // empty.
    let mut a = Socket::new();
    let mut b = Socket::new();

    let fut = dial(&mut a, vec![]);
    transfer(&mut a, &mut b);

    let (handshake, mut substream) = listen(&mut b);
    assert!(handshake.is_empty());
    substream.send_handshake(vec![]);
    assert!(matches!(substream.poll_next(&mut b), InboundPoll::Pending));
    transfer(&mut b, &mut a);

    let (handshake, out_substream) = finish_dial(fut, &mut a).unwrap();
    assert!(handshake.is_empty());

    out_substream.start_send(&mut a, &Vec::new()).unwrap();
    assert!(matches!(
        out_substream.poll_flush(&mut a),
        Poll::Ready(Ok(()))
    ));
    transfer(&mut a, &mut b);

    match substream.poll_next(&mut b) {
        InboundPoll::Item(msg) => assert!(msg.is_empty()),
        other => panic!("no notification was surfaced: {:?}", other),
    }
}

#[test]
fn refused() {
    let mut a = Socket::new();
    let mut b = Socket::new();

    let fut = dial(&mut a, b"hello".to_vec());
    transfer(&mut a, &mut b);

    let (handshake, substream) = listen(&mut b);
    assert_eq!(handshake, b"hello");

    // We successfully upgrade to the protocol, but then close the
    // substream without ever sending the handshake back.
    drop(substream);
    a.close_remote();

    // Despite the protocol negotiation being successfully conducted on
    // the listener side, the dialer gets an error because the listener
    // never sent its handshake.
    let outcome = finish_dial(fut, &mut a);
    assert!(outcome.is_err());
}

#[test]
fn large_initial_message_refused() {
    let mut a = Socket::new();
    let mut b = Socket::new();

    let fut = dial(&mut a, (0..32768).map(|_| 0).collect::<Vec<_>>());
    transfer(&mut a, &mut b);

    // The acceptor refuses the oversized initial message as soon as its
    // length prefix is read.
    let notifs_in = NotificationsIn::new(proto(PROTO_NAME), Vec::new(), 1024 * 1024);
    match notifs_in.upgrade_inbound(proto(PROTO_NAME)).poll_upgrade(&mut b) {
        InboundUpgradeStep::Complete(Err(NotificationsHandshakeError::TooLarge {
            requested,
            max,
        })) => {
            assert_eq!(requested, 32768);
            assert_eq!(max, 1024);
        }
        other => panic!("the oversized initial message went through: {:?}", other),
    }

    // The refused substream is dropped; the dialer's read fails too.
    a.close_remote();
    let ret = finish_dial(fut, &mut a);
    assert!(ret.is_err());
}

#[test]
fn large_handshake_refused() {
    let mut a = Socket::new();
    let mut b = Socket::new();

    let fut = dial(&mut a, b"initial message".to_vec());
    transfer(&mut a, &mut b);

    let (handshake, mut substream) = listen(&mut b);
    assert_eq!(handshake, b"initial message");

    // We check that a handshake that is too large gets refused.
    substream.send_handshake((0..32768).map(|_| 0).collect::<Vec<_>>());
    let _ = substream.poll_next(&mut b);
    transfer(&mut b, &mut a);

    let ret = finish_dial(fut, &mut a);
    assert!(ret.is_err());
}

#[test]
fn send_handshake_without_polling_for_incoming_data() {
    let mut a = Socket::new();
    let mut b = Socket::new();

    let fut = dial(&mut a, b"initial message".to_vec());
    transfer(&mut a, &mut b);

    let (handshake, mut substream) = listen(&mut b);
    assert_eq!(handshake, b"initial message");
    substream.send_handshake(b"hello world".to_vec());

    // Actually send the handshake, without reading anything.
    assert!(matches!(
        substream.poll_process(&mut b),
        Poll::Ready(Ok(()))
    ));
    transfer(&mut b, &mut a);

    let (handshake, _out_substream) = finish_dial(fut, &mut a).unwrap();
    assert_eq!(handshake, b"hello world");
}

#[test]
fn can_detect_dropped_out_substream_without_writing_data() {
    let mut a = Socket::new();
    let mut b = Socket::new();

    let fut = dial(&mut a, b"initial message".to_vec());
    transfer(&mut a, &mut b);

    let (handshake, mut substream) = listen(&mut b);
    assert_eq!(handshake, b"initial message");

    // Send the handshake.
    substream.send_handshake(b"hello world".to_vec());
    assert!(matches!(
        substream.poll_process(&mut b),
        Poll::Ready(Ok(()))
    ));
    transfer(&mut b, &mut a);

    let (handshake, out_substream) = finish_dial(fut, &mut a).unwrap();
    assert_eq!(handshake, b"hello world");

    // The acceptor goes away without a single byte flowing afterwards.
    drop(substream);
    a.close_remote();

    // A flush on the idle substream still notices.
    match out_substream.poll_flush(&mut a) {
        Poll::Ready(Err(e)) => assert!(matches!(e, NotificationsOutError::Closed)),
        other => panic!("the dead substream went unnoticed: {:?}", other),
    }
}

#[test]
fn notifications_keep_their_order() {
    let mut a = Socket::new();
    let mut b = Socket::new();

    let fut = dial(&mut a, vec![]);
    transfer(&mut a, &mut b);
    let (_, mut substream) = listen(&mut b);
    substream.send_handshake(vec![]);
    assert!(matches!(substream.poll_process(&mut b), Poll::Ready(Ok(()))));
    transfer(&mut b, &mut a);
    let (_, out_substream) = finish_dial(fut, &mut a).unwrap();

    for msg in [&b"first"[..], &b"second"[..], &b"third"[..]] {
        out_substream.start_send(&mut a, &msg.to_vec()).unwrap();
    }
    assert!(matches!(out_substream.poll_flush(&mut a), Poll::Ready(Ok(()))));
    transfer(&mut a, &mut b);

    for expected in [&b"first"[..], &b"second"[..], &b"third"[..]] {
        match substream.poll_next(&mut b) {
            InboundPoll::Item(msg) => assert_eq!(msg, expected),
            other => panic!("order was not kept: {:?}", other),
        }
    }
    assert!(matches!(substream.poll_next(&mut b), InboundPoll::Pending));
}

#[test]
fn nothing_is_read_before_the_handshake_is_given() {
    let mut b = Socket::new();
    // A whole notification already waits in the receive buffer.
    b.deliver(&encode_frame(&b"early".to_vec()));

    let mut substream = NotificationsInSubstream::new(
        1024,
        notifications::inbound::NotificationsInSubstreamHandshake::NotSent,
    );
    // Until the owner supplies the handshake, nothing is surfaced and
    // nothing is consumed.
    assert!(matches!(substream.poll_next(&mut b), InboundPoll::Pending));
    assert!(matches!(substream.poll_next(&mut b), InboundPoll::Pending));

    substream.send_handshake(b"ok".to_vec());
    match substream.poll_next(&mut b) {
        InboundPoll::Item(msg) => assert_eq!(msg, b"early"),
        other => panic!("the waiting notification was lost: {:?}", other),
    }
}

#[test]
fn handshake_is_sent_once_only() {
    let mut b = Socket::new();
    let mut substream = NotificationsInSubstream::new(
        1024,
        notifications::inbound::NotificationsInSubstreamHandshake::NotSent,
    );
    substream.send_handshake(b"first".to_vec());
    // The second call is a no-op: the first message may already be on
    // the wire.
    substream.send_handshake(b"second".to_vec());
    assert!(matches!(substream.poll_process(&mut b), Poll::Ready(Ok(()))));
    assert_eq!(b.take_written(), encode_frame(&b"first".to_vec()));
}

#[test]
fn backpressure_retries_the_same_step() {
    let mut b = Socket::new();
    let mut substream = NotificationsInSubstream::new(
        1024,
        notifications::inbound::NotificationsInSubstreamHandshake::NotSent,
    );
    substream.send_handshake(b"hs".to_vec());

    // The transport refuses writes: the handshake stays pending and
    // nothing reaches the wire.
    b.set_write_ready(false);
    assert!(matches!(substream.poll_process(&mut b), Poll::Pending));
    assert!(b.take_written().is_empty());

    // Writes pass but the flush stalls: still nothing on the wire.
    b.set_write_ready(true);
    b.set_flush_ready(false);
    assert!(matches!(substream.poll_process(&mut b), Poll::Pending));
    assert!(b.take_written().is_empty());

    // The flush passes: the handshake frame appears.
    b.set_flush_ready(true);
    assert!(matches!(substream.poll_process(&mut b), Poll::Ready(Ok(()))));
    assert_eq!(b.take_written(), encode_frame(&b"hs".to_vec()));
}

#[test]
fn remote_close_ends_the_sequence_after_own_close() {
    let mut b = Socket::new();
    let mut substream = NotificationsInSubstream::new(
        1024,
        notifications::inbound::NotificationsInSubstreamHandshake::NotSent,
    );
    substream.send_handshake(vec![]);
    b.deliver(&encode_frame(&b"last".to_vec()));
    b.close_remote();

    // The waiting notification is still delivered.
    match substream.poll_next(&mut b) {
        InboundPoll::Item(msg) => assert_eq!(msg, b"last"),
        other => panic!("the last notification was lost: {:?}", other),
    }

    // Our own close is held up by the transport first.
    b.set_close_ready(false);
    assert!(matches!(substream.poll_next(&mut b), InboundPoll::Pending));
    assert!(!b.is_local_closed());

    // Once it goes through, the sequence is exhausted, and stays so.
    b.set_close_ready(true);
    assert!(matches!(substream.poll_next(&mut b), InboundPoll::Exhausted));
    assert!(b.is_local_closed());
    assert!(matches!(substream.poll_next(&mut b), InboundPoll::Exhausted));
}

#[test]
fn unexpected_data_is_never_passed_over() {
    let mut a = Socket::new();
    let out_substream = NotificationsOutSubstream::new(PeerId::new(vec![9]), 1024);

    // The remote, in violation of the protocol, sends a frame on the
    // outbound-only channel.
    a.deliver(&encode_frame(&b"rogue".to_vec()));

    match out_substream.poll_flush(&mut a) {
        Poll::Ready(Err(e)) => assert!(matches!(e, NotificationsOutError::UnexpectedData)),
        other => panic!("the violation was passed over: {:?}", other),
    }
}

#[test]
fn oversized_notification_is_a_caller_error() {
    let mut a = Socket::new();
    let out_substream = NotificationsOutSubstream::new(PeerId::new(vec![9]), 4);
    let r = out_substream.start_send(&mut a, &b"five!".to_vec());
    assert!(matches!(
        r,
        Err(NotificationsOutError::Io(IoError::OversizedFrame))
    ));
    // Nothing reached the wire.
    assert!(matches!(out_substream.poll_flush(&mut a), Poll::Ready(Ok(()))));
    assert!(a.take_written().is_empty());
}

#[test]
fn closing_the_outbound_side() {
    let mut a = Socket::new();
    let out_substream = NotificationsOutSubstream::new(PeerId::new(vec![2]), 1024);
    assert!(matches!(out_substream.poll_ready(&a), Poll::Ready(Ok(()))));

    a.set_close_ready(false);
    assert!(matches!(out_substream.poll_close(&mut a), Poll::Pending));
    a.set_close_ready(true);
    assert!(matches!(out_substream.poll_close(&mut a), Poll::Ready(Ok(()))));
    assert!(a.is_local_closed());

    // Writing after the close fails.
    let r = out_substream.start_send(&mut a, &b"late".to_vec());
    assert!(matches!(r, Err(NotificationsOutError::Io(IoError::Closed))));
}

#[test]
fn malformed_length_prefix_fails_negotiation() {
    let mut b = Socket::new();
    // Ten continuation bytes can never terminate a length prefix.
    b.deliver(&vec![0x80; 10]);

    let notifs_in = NotificationsIn::new(proto(PROTO_NAME), Vec::new(), 1024 * 1024);
    match notifs_in.upgrade_inbound(proto(PROTO_NAME)).poll_upgrade(&mut b) {
        InboundUpgradeStep::Complete(Err(err)) => {
            assert_eq!(err, NotificationsHandshakeError::VarintDecode);
        }
        other => panic!("the bad prefix went through: {:?}", other),
    }
}

#[test]
fn truncated_handshake_fails_as_io_error() {
    let mut a = Socket::new();
    let mut b = Socket::new();

    let fut = dial(&mut a, b"initial message".to_vec());
    transfer(&mut a, &mut b);
    let (_, _substream) = listen(&mut b);

    // The acceptor dies after sending only part of its answer.
    a.deliver(&vec![0x0b, b'h', b'e']);
    a.close_remote();

    match finish_dial(fut, &mut a) {
        Err(err) => assert_eq!(
            err,
            NotificationsHandshakeError::Io(IoError::UnexpectedEof)
        ),
        Ok(_) => panic!("a truncated handshake went through"),
    }
}

#[test]
fn broken_frames_fail_the_inbound_stream() {
    // An established substream receiving an oversized frame surfaces the
    // size violation.
    let mut b = Socket::new();
    let mut substream = NotificationsInSubstream::new(
        4,
        notifications::inbound::NotificationsInSubstreamHandshake::Sent,
    );
    b.deliver(&encode_frame(&b"too long".to_vec()));
    match substream.poll_next(&mut b) {
        InboundPoll::Failed(FrameError::TooLarge { requested, max }) => {
            assert_eq!(requested, 8);
            assert_eq!(max, 4);
        }
        other => panic!("the oversized frame was not refused: {:?}", other),
    }

    // One receiving garbage in place of a length prefix fails too.
    let mut c = Socket::new();
    let mut substream = NotificationsInSubstream::new(
        1024,
        notifications::inbound::NotificationsInSubstreamHandshake::Sent,
    );
    c.deliver(&vec![0x80; 10]);
    match substream.poll_next(&mut c) {
        InboundPoll::Failed(FrameError::Malformed) => {}
        other => panic!("the bad prefix was not refused: {:?}", other),
    }
}

#[test]
fn fallback_name_is_reported() {
    let notifs_out = NotificationsOut::new(
        proto(PROTO_NAME),
        vec![proto("/test/proto/0")],
        b"hi".to_vec(),
        1024,
        PeerId::new(vec![1]),
    );
    assert_eq!(notifs_out.protocol_info().len(), 2);

    let mut a = Socket::new();
    let mut b = Socket::new();
    let fut = notifs_out.upgrade_outbound(proto("/test/proto/0"));
    let fut = match fut.poll_upgrade(&mut a) {
        OutboundUpgradeStep::Pending(fut) => fut,
        other => panic!("no response can have arrived yet: {:?}", other),
    };
    transfer(&mut a, &mut b);

    let (_, mut substream) = listen(&mut b);
    substream.send_handshake(b"yes".to_vec());
    assert!(matches!(substream.poll_process(&mut b), Poll::Ready(Ok(()))));
    transfer(&mut b, &mut a);

    match fut.poll_upgrade(&mut a) {
        OutboundUpgradeStep::Complete(Ok(NotificationsOutOpen {
            negotiated_fallback, ..
        })) => {
            let fallback = negotiated_fallback.expect("a fallback name was negotiated");
            assert_eq!(fallback.as_bytes().as_slice(), b"/test/proto/0");
        }
        other => panic!("the upgrade did not complete: {:?}", other),
    }
}
