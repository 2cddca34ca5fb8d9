use carrier::codec::{
    decode_payload, encode_frame, encode_payload, FrameBuffer, TAG_CONNECT_TO_PEER, TAG_HELLO,
    TAG_PEER_NOT_FOUND, TAG_REQUEST_SERVICE, TAG_SERVICE_ESTABLISHED, TAG_SERVICE_NOT_FOUND,
};
use carrier::error::Error;
use carrier::protocol::{ControlMessage, PeerIdentity, ServiceName};

fn name(bytes: &[u8]) -> ServiceName {
    ServiceName::from_bytes(bytes.to_vec()).unwrap()
}

fn identity(bytes: &[u8]) -> PeerIdentity {
    PeerIdentity::from_bytes(bytes.to_vec()).unwrap()
}

#[test]
fn hello_encodes_to_one_tag_byte() {
    assert_eq!(encode_payload(&ControlMessage::Hello), vec![TAG_HELLO]);
}

#[test]
fn established_and_not_found_encode_to_one_tag_byte() {
    assert_eq!(
        encode_payload(&ControlMessage::ServiceConnectionEstablished),
        vec![TAG_SERVICE_ESTABLISHED]
    );
    assert_eq!(
        encode_payload(&ControlMessage::ServiceNotFound),
        vec![TAG_SERVICE_NOT_FOUND]
    );
}

#[test]
fn peer_not_found_encodes_big_endian() {
    let m = ControlMessage::PeerNotFound {
        connection_id: 0x0102030405060708,
    };
    assert_eq!(
        encode_payload(&m),
        vec![TAG_PEER_NOT_FOUND, 1, 2, 3, 4, 5, 6, 7, 8]
    );
}

#[test]
fn connect_to_peer_encodes_id_then_target() {
    let m = ControlMessage::ConnectToPeer {
        target: identity(&[0xaa, 0xbb]),
        connection_id: 5,
    };
    assert_eq!(
        encode_payload(&m),
        vec![TAG_CONNECT_TO_PEER, 0, 0, 0, 0, 0, 0, 0, 5, 2, 0xaa, 0xbb]
    );
}

#[test]
fn request_service_encodes_length_then_name() {
    let m = ControlMessage::RequestService {
        name: name(b"echo"),
    };
    assert_eq!(
        encode_payload(&m),
        vec![TAG_REQUEST_SERVICE, 4, b'e', b'c', b'h', b'o']
    );
}

#[test]
fn every_variant_round_trips() {
    let messages = vec![
        ControlMessage::Hello,
        ControlMessage::ConnectToPeer {
            target: identity(&[7; 32]),
            connection_id: u64::MAX,
        },
        ControlMessage::PeerNotFound { connection_id: 0 },
        ControlMessage::RequestService {
            name: name(b"lifeline"),
        },
        ControlMessage::ServiceConnectionEstablished,
        ControlMessage::ServiceNotFound,
    ];
    for m in messages {
        let bytes = encode_payload(&m);
        assert_eq!(decode_payload(&bytes), Ok(Some(m)));
    }
}

#[test]
fn unknown_tag_is_ignored_not_an_error() {
    assert_eq!(decode_payload(&[0x7f]), Ok(None));
    assert_eq!(decode_payload(&[0x7f, 1, 2, 3]), Ok(None));
    assert_eq!(decode_payload(&[0]), Ok(None));
}

#[test]
fn malformed_payloads_are_protocol_violations() {
    // No tag at all.
    assert_eq!(decode_payload(&[]), Err(Error::ProtocolViolation));
    // Trailing byte after a bare-tag message.
    assert_eq!(decode_payload(&[TAG_HELLO, 0]), Err(Error::ProtocolViolation));
    // Truncated connection id.
    assert_eq!(
        decode_payload(&[TAG_PEER_NOT_FOUND, 1, 2, 3]),
        Err(Error::ProtocolViolation)
    );
    // Name length byte that overruns the payload.
    assert_eq!(
        decode_payload(&[TAG_REQUEST_SERVICE, 5, b'a']),
        Err(Error::ProtocolViolation)
    );
    // A service name with a non-printable byte.
    assert_eq!(
        decode_payload(&[TAG_REQUEST_SERVICE, 1, 0x07]),
        Err(Error::ProtocolViolation)
    );
    // A target longer than an identity may be.
    let mut bad = vec![TAG_CONNECT_TO_PEER, 0, 0, 0, 0, 0, 0, 0, 1, 65];
    bad.extend(std::iter::repeat(0u8).take(65));
    assert_eq!(decode_payload(&bad), Err(Error::ProtocolViolation));
}

#[test]
fn frame_is_length_prefixed_big_endian() {
    assert_eq!(encode_frame(&ControlMessage::Hello), vec![0, 0, 0, 1, TAG_HELLO]);
    let m = ControlMessage::RequestService {
        name: name(b"echo"),
    };
    let framed = encode_frame(&m);
    assert_eq!(&framed[0..4], &[0, 0, 0, 6]);
    assert_eq!(&framed[4..], &encode_payload(&m)[..]);
}

#[test]
fn frame_buffer_reassembles_split_frames() {
    let mut buf = FrameBuffer::new();
    let framed = encode_frame(&ControlMessage::ServiceNotFound);
    buf.feed(&framed[0..2]);
    assert!(buf.next_frame().is_none());
    buf.feed(&framed[2..]);
    let payload = buf.next_frame().unwrap();
    assert_eq!(decode_payload(&payload), Ok(Some(ControlMessage::ServiceNotFound)));
    assert!(buf.next_frame().is_none());
    assert_eq!(buf.buffered(), 0);
}

#[test]
fn frame_buffer_keeps_frame_order() {
    let first = ControlMessage::Hello;
    let second = ControlMessage::PeerNotFound { connection_id: 9 };
    let third = ControlMessage::ServiceConnectionEstablished;
    let mut stream = Vec::new();
    stream.extend(encode_frame(&first));
    stream.extend(encode_frame(&second));
    stream.extend(encode_frame(&third));
    let mut buf = FrameBuffer::new();
    buf.feed(&stream);
    assert_eq!(decode_payload(&buf.next_frame().unwrap()), Ok(Some(first)));
    assert_eq!(decode_payload(&buf.next_frame().unwrap()), Ok(Some(second)));
    assert_eq!(decode_payload(&buf.next_frame().unwrap()), Ok(Some(third)));
    assert!(buf.next_frame().is_none());
}

#[test]
fn service_name_enforces_its_limits() {
    assert!(ServiceName::from_bytes(vec![b'a'; 64]).is_ok());
    assert_eq!(
        ServiceName::from_bytes(vec![b'a'; 65]),
        Err(Error::Configuration)
    );
    assert_eq!(ServiceName::from_bytes(Vec::new()), Err(Error::Configuration));
    assert_eq!(
        ServiceName::from_bytes(vec![b'a', 0x1f]),
        Err(Error::Configuration)
    );
    assert_eq!(
        ServiceName::from_bytes(vec![0x7f]),
        Err(Error::Configuration)
    );
}

#[test]
fn peer_identity_enforces_its_limits() {
    assert!(PeerIdentity::from_bytes(vec![0u8; 64]).is_ok());
    assert_eq!(
        PeerIdentity::from_bytes(vec![0u8; 65]),
        Err(Error::Configuration)
    );
    assert_eq!(PeerIdentity::from_bytes(Vec::new()), Err(Error::Configuration));
}

#[test]
fn name_at_the_limit_round_trips() {
    let m = ControlMessage::RequestService {
        name: name(&[b'z'; 64]),
    };
    let bytes = encode_payload(&m);
    assert_eq!(bytes.len(), 2 + 64);
    assert_eq!(decode_payload(&bytes), Ok(Some(m)));
}
