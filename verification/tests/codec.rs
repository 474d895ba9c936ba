use bytes::BytesMut;
use net_manthan::rpc::message_codec::{CodecError, MessageCodec, MAX_FRAME_LEN};

#[test]
fn encode_prefixes_length_little_endian() {
    let mut codec = MessageCodec;
    let mut dst = BytesMut::new();
    assert!(codec.encode(vec![1, 2, 3], &mut dst).is_ok());
    assert_eq!(&dst[..], &[3, 0, 0, 0, 1, 2, 3]);
}

#[test]
fn encode_appends_after_existing_bytes() {
    let mut codec = MessageCodec;
    let mut dst = BytesMut::from(&[9u8][..]);
    assert!(codec.encode(vec![], &mut dst).is_ok());
    assert_eq!(&dst[..], &[9, 0, 0, 0, 0]);
}

#[test]
fn frames_round_trip_in_order() {
    let mut codec = MessageCodec;
    let mut buf = BytesMut::new();
    codec.encode(b"hello".to_vec(), &mut buf).unwrap();
    codec.encode(vec![0u8; 300], &mut buf).unwrap();
    let first = codec.decode(&mut buf).unwrap().unwrap();
    assert_eq!(&first[..], b"hello");
    let second = codec.decode(&mut buf).unwrap().unwrap();
    assert_eq!(&second[..], &vec![0u8; 300][..]);
    assert!(buf.is_empty());
    assert!(matches!(codec.decode(&mut buf), Ok(None)));
}

#[test]
fn short_header_is_incomplete() {
    let mut codec = MessageCodec;
    let mut buf = BytesMut::from(&[1u8, 0][..]);
    assert!(matches!(codec.decode(&mut buf), Ok(None)));
    assert_eq!(&buf[..], &[1, 0]);
}

#[test]
fn short_body_is_incomplete_and_kept() {
    let mut codec = MessageCodec;
    let mut buf = BytesMut::from(&[5u8, 0, 0, 0, 1, 2][..]);
    assert!(matches!(codec.decode(&mut buf), Ok(None)));
    assert_eq!(buf.len(), 6);
    buf.extend_from_slice(&[3, 4, 5, 6]);
    let frame = codec.decode(&mut buf).unwrap().unwrap();
    assert_eq!(&frame[..], &[1, 2, 3, 4, 5]);
    assert_eq!(&buf[..], &[6]);
}

#[test]
fn oversized_frame_is_refused() {
    let mut codec = MessageCodec;
    let len = (MAX_FRAME_LEN as u32) + 1;
    let mut buf = BytesMut::from(&len.to_le_bytes()[..]);
    assert_eq!(codec.decode(&mut buf).unwrap_err(), CodecError::MessageTooLarge);
    assert_eq!(buf.len(), 4);
}

#[test]
fn frame_of_the_limit_is_accepted() {
    let mut codec = MessageCodec;
    let mut buf = BytesMut::new();
    codec.encode(vec![7u8; MAX_FRAME_LEN], &mut buf).unwrap();
    let frame = codec.decode(&mut buf).unwrap().unwrap();
    assert_eq!(frame.len(), 1048576);
    assert!(buf.is_empty());
}
