use mmc::protocol::{Frame, FrameType, ProtocolError};

#[test]
fn test_frame_encoding() {
    let frame = Frame::new(FrameType::PairingRequest, b"hello".to_vec());
    let encoded = frame.encode();
    assert_eq!(encoded.len(), 6 + 5);
    assert_eq!(u16::from_be_bytes([0x01, 0x01]), u16::from_be_bytes([encoded[0], encoded[1]]));
    assert_eq!(5u32, u32::from_be_bytes([encoded[2], encoded[3], encoded[4], encoded[5]]));
}

#[test]
fn test_frame_decode() {
    let data = [0x01, 0x01, 0x00, 0x00, 0x00, 0x05, b'h', b'e', b'l', b'l', b'o'];
    let frame = Frame::decode(&data).unwrap().unwrap();
    assert_eq!(frame.frame_type, FrameType::PairingRequest);
    assert_eq!(frame.payload, b"hello");
}

#[test]
fn test_frame_type_from_u16() {
    assert_eq!(FrameType::from_u16(0x0101), Some(FrameType::PairingRequest));
    assert_eq!(FrameType::from_u16(0x0203), Some(FrameType::ChunkData));
    assert_eq!(FrameType::from_u16(0xFFFF), None);
}

#[test]
fn test_new_frame_types() {
    assert_eq!(FrameType::from_u16(0x0401), Some(FrameType::VideoFrame));
    assert_eq!(FrameType::from_u16(0x0402), Some(FrameType::AudioFrame));
    assert_eq!(FrameType::from_u16(0x0403), Some(FrameType::VideoConfig));
    assert_eq!(FrameType::from_u16(0x0404), Some(FrameType::AudioConfig));
}

#[test]
fn frame_roundtrip_with_trailing_bytes() {
    let frame = Frame::new(FrameType::Pong, vec![1, 2, 3]);
    let mut bytes = frame.encode();
    bytes.extend_from_slice(&[9, 9]);
    let decoded = Frame::decode(&bytes).unwrap().unwrap();
    assert_eq!(decoded.frame_type(), FrameType::Pong);
    assert_eq!(decoded.into_payload(), vec![1, 2, 3]);
}

#[test]
fn incomplete_frame_decodes_to_none() {
    let bytes = Frame::new(FrameType::Ping, vec![1, 2, 3]).encode();
    for n in 0..bytes.len() {
        assert!(Frame::decode(&bytes[..n]).unwrap().is_none());
    }
}

#[test]
fn unknown_frame_type_is_an_error() {
    let bytes = [0x12, 0x34, 0, 0, 0, 0];
    match Frame::decode(&bytes) {
        Err(ProtocolError::UnknownFrameType(v)) => assert_eq!(v, 0x1234),
        _ => panic!("expected an unknown frame type"),
    }
}

#[test]
fn frame_type_codes_roundtrip() {
    for t in [FrameType::Heartbeat, FrameType::ChunkAck, FrameType::ClipboardContent, FrameType::Pong] {
        assert_eq!(FrameType::from_u16(t.to_u16()), Some(t));
    }
    assert_eq!(FrameType::Heartbeat.to_u16(), 0xFF01);
}

#[test]
fn parse_header_reads_type_and_length() {
    let (t, n) = mmc::protocol::parse_header(&[0xFF, 0x02, 0, 0, 1, 0]).unwrap();
    assert_eq!(t, FrameType::Ping);
    assert_eq!(n, 256);
    assert!(mmc::protocol::parse_header(&[0, 0, 0, 0, 0, 0]).is_err());
}

#[test]
fn protocol_error_messages() {
    assert_eq!(ProtocolError::UnknownFrameType(0x9999).to_string(), "Unknown frame type: 39321");
    assert_eq!(ProtocolError::InvalidFrame("bad".to_string()).to_string(), "Invalid frame: bad");
    assert_eq!(
        ProtocolError::BufferTooSmall { need: 6, got: 2 }.to_string(),
        "Buffer too small: need 6, got 2"
    );
    assert_eq!(ProtocolError::Serialization("x".to_string()).to_string(), "Serialization error: x");
    let io = ProtocolError::Io(std::io::Error::new(std::io::ErrorKind::Other, "disk"));
    assert_eq!(io.to_string(), "IO error: disk");
}
