//! The varint and frame codec against exact byte values, and against the
//! `unsigned-varint` crate as an independent oracle.

use notifications::codec::{decode_frame, encode_frame, FrameDecode};
use notifications::varint::{decode_varint, encode_varint, VarintDecode, MAX_VARINT_LEN};

#[test]
fn varint_exact_encodings() {
    assert_eq!(encode_varint(0), vec![0x00]);
    assert_eq!(encode_varint(1), vec![0x01]);
    assert_eq!(encode_varint(127), vec![0x7f]);
    assert_eq!(encode_varint(128), vec![0x80, 0x01]);
    assert_eq!(encode_varint(300), vec![0xac, 0x02]);
    assert_eq!(encode_varint(16384), vec![0x80, 0x80, 0x01]);
    assert_eq!(
        encode_varint(u64::MAX),
        vec![0xff, 0xff, 0xff, 0xff, 0xff, 0xff, 0xff, 0xff, 0xff, 0x01]
    );
    assert_eq!(encode_varint(u64::MAX).len(), MAX_VARINT_LEN);
}

#[test]
fn varint_decode_inverts_encode() {
    for value in [0u64, 1, 127, 128, 300, 16384, 1024, 32768, u64::MAX] {
        let mut bytes = encode_varint(value);
        let encoded_len = bytes.len();
        bytes.push(0xAA);
        match decode_varint(&bytes) {
            VarintDecode::Value { value: got, length } => {
                assert_eq!(got, value);
                assert_eq!(length, encoded_len);
            }
            other => panic!("decoding {} failed: {:?}", value, other),
        }
    }
}

#[test]
fn varint_rejects_bad_prefixes() {
    // A lone continuation byte: wait for more input.
    assert!(matches!(decode_varint(&vec![0x80]), VarintDecode::NeedMore));
    assert!(matches!(decode_varint(&Vec::new()), VarintDecode::NeedMore));
    // Ten continuation bytes never terminate a u64.
    assert!(matches!(
        decode_varint(&vec![0x80; 10]),
        VarintDecode::Malformed
    ));
    // A trailing zero byte is a non-minimal encoding.
    assert!(matches!(
        decode_varint(&vec![0x80, 0x00]),
        VarintDecode::Malformed
    ));
    // A value above u64::MAX.
    assert!(matches!(
        decode_varint(&vec![0xff, 0xff, 0xff, 0xff, 0xff, 0xff, 0xff, 0xff, 0xff, 0x7f]),
        VarintDecode::Malformed
    ));
}

#[test]
fn varint_matches_the_unsigned_varint_crate() {
    for value in [0u64, 1, 127, 128, 300, 16383, 16384, 1024, 32768, u64::MAX] {
        let ours = encode_varint(value);
        let mut buf = unsigned_varint::encode::u64_buffer();
        let theirs = unsigned_varint::encode::u64(value, &mut buf);
        assert_eq!(ours.as_slice(), theirs);

        let mut with_rest = ours.clone();
        with_rest.extend_from_slice(b"rest");
        let (got, rest) = unsigned_varint::decode::u64(&with_rest).unwrap();
        assert_eq!(got, value);
        assert_eq!(rest, b"rest");
        match decode_varint(&with_rest) {
            VarintDecode::Value { value: got, length } => {
                assert_eq!(got, value);
                assert_eq!(with_rest.len() - length, rest.len());
            }
            other => panic!("decoding {} failed: {:?}", value, other),
        }
    }

    // The error cases agree as well.
    assert!(matches!(
        unsigned_varint::decode::u64(&[0x80]),
        Err(unsigned_varint::decode::Error::Insufficient)
    ));
    assert!(matches!(decode_varint(&vec![0x80]), VarintDecode::NeedMore));

    assert!(matches!(
        unsigned_varint::decode::u64(&[0x80, 0x00]),
        Err(unsigned_varint::decode::Error::NotMinimal)
    ));
    assert!(matches!(
        decode_varint(&vec![0x80, 0x00]),
        VarintDecode::Malformed
    ));

    assert!(matches!(
        unsigned_varint::decode::u64(&[0x80; 10]),
        Err(unsigned_varint::decode::Error::Overflow)
    ));
    assert!(matches!(
        decode_varint(&vec![0x80; 10]),
        VarintDecode::Malformed
    ));
}

#[test]
fn frame_round_trip() {
    for payload in [&b""[..], &b"x"[..], &b"test message"[..], &[0u8; 300][..]] {
        let encoded = encode_frame(&payload.to_vec());
        match decode_frame(&encoded, 1024) {
            FrameDecode::Frame {
                payload: got,
                consumed,
            } => {
                assert_eq!(got.as_slice(), payload);
                assert_eq!(consumed, encoded.len());
            }
            other => panic!("frame round trip failed: {:?}", other),
        }
    }
}

#[test]
fn zero_length_frame_is_valid() {
    // A zero-byte frame is just the length prefix 0.
    assert_eq!(encode_frame(&Vec::new()), vec![0x00]);
    match decode_frame(&vec![0x00, 0x07], 0) {
        FrameDecode::Frame { payload, consumed } => {
            assert!(payload.is_empty());
            assert_eq!(consumed, 1);
        }
        other => panic!("the empty frame was refused: {:?}", other),
    }
}

#[test]
fn partial_frame_waits_for_more() {
    let encoded = encode_frame(&b"hello world".to_vec());
    for cut in 0..encoded.len() {
        let partial = encoded[..cut].to_vec();
        assert!(
            matches!(decode_frame(&partial, 1024), FrameDecode::NeedMore),
            "a {}-byte prefix must not decode",
            cut
        );
    }
}

#[test]
fn oversized_frame_is_refused_at_the_prefix() {
    let encoded = encode_frame(&vec![0u8; 32768]);
    // Only the length prefix matters: even with the whole payload there,
    // the frame is refused under a smaller cap.
    match decode_frame(&encoded, 1024) {
        FrameDecode::TooLarge { requested } => assert_eq!(requested, 32768),
        other => panic!("the oversized frame was not refused: {:?}", other),
    }
    // The prefix alone is already enough to refuse.
    let prefix = encoded[..3].to_vec();
    match decode_frame(&prefix, 1024) {
        FrameDecode::TooLarge { requested } => assert_eq!(requested, 32768),
        other => panic!("the prefix alone did not suffice: {:?}", other),
    }
}

#[test]
fn malformed_prefix_is_an_error() {
    assert!(matches!(
        decode_frame(&vec![0x80; 10], 1024),
        FrameDecode::Malformed
    ));
}
