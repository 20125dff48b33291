use netbench_orchestrator::encoding::is_valid_utf8;
use netbench_orchestrator::error::{russula_error_from_io, IoErrorKind, RussulaError};
use netbench_orchestrator::network_utils::{construct_payload, parse_frame, read_msg_len, Msg};

#[test]
fn framing_hello_encodes_with_length_prefix() {
    let msg = Msg::new(b"Hello".to_vec()).unwrap();
    assert_eq!(msg.payload_len(), 5);
    let frame = construct_payload(&msg);
    assert_eq!(frame, vec![0x00, 0x05, b'H', b'e', b'l', b'l', b'o']);
}

#[test]
fn framing_hello_round_trips() {
    let msg = Msg::new(b"Hello".to_vec()).unwrap();
    let frame = construct_payload(&msg);
    let decoded = parse_frame(&frame).unwrap();
    assert_eq!(decoded.payload_len(), 5);
    assert_eq!(decoded.as_bytes(), b"Hello");
    assert_eq!(decoded.as_str(), "Hello");
}

#[test]
fn framing_rejects_bad_utf8_with_bad_msg() {
    let frame = vec![0x00, 0x01, 0xFF];
    match parse_frame(&frame) {
        Err(RussulaError::BadMsg { dbg: _ }) => (),
        other => panic!("expected BadMsg, got {:?}", other.is_ok()),
    }
}

#[test]
fn framing_empty_payload_round_trips() {
    let msg = Msg::new(Vec::new()).unwrap();
    let frame = construct_payload(&msg);
    assert_eq!(frame, vec![0x00, 0x00]);
    let decoded = parse_frame(&frame).unwrap();
    assert_eq!(decoded.payload_len(), 0);
}

#[test]
fn framing_multibyte_utf8_round_trips() {
    let text = "snowman \u{2603} and more";
    let msg = Msg::new(text.as_bytes().to_vec()).unwrap();
    let frame = construct_payload(&msg);
    let decoded = parse_frame(&frame).unwrap();
    assert_eq!(decoded.as_str(), text);
}

#[test]
fn framing_short_payload_is_read_fail() {
    // Announces two bytes, delivers one: the peer closed mid frame.
    let frame = vec![0x00, 0x02, b'a'];
    match parse_frame(&frame) {
        Err(RussulaError::ReadFail { dbg: _ }) => (),
        _ => panic!("expected ReadFail"),
    }
}

#[test]
fn framing_extra_bytes_are_bad_msg() {
    let frame = vec![0x00, 0x01, b'a', b'b'];
    match parse_frame(&frame) {
        Err(RussulaError::BadMsg { dbg: _ }) => (),
        _ => panic!("expected BadMsg"),
    }
}

#[test]
fn framing_empty_buffer_is_read_fail() {
    match read_msg_len(&[]) {
        Err(RussulaError::ReadFail { dbg: _ }) => (),
        _ => panic!("expected ReadFail"),
    }
    assert_eq!(read_msg_len(&[0x01, 0x02]).unwrap(), 258);
}

#[test]
fn msg_new_rejects_oversize_payload() {
    let data = vec![b'a'; 65536];
    match Msg::new(data) {
        Err(RussulaError::BadMsg { dbg: _ }) => (),
        _ => panic!("expected BadMsg"),
    }
    let data = vec![b'a'; 65535];
    assert!(Msg::new(data).is_ok());
}

#[test]
fn utf8_check_accepts_and_rejects() {
    assert!(is_valid_utf8(b"plain ascii"));
    assert!(is_valid_utf8("caf\u{e9} \u{2603} \u{1F600}".as_bytes()));
    // A lone continuation byte.
    assert!(!is_valid_utf8(&[0x80]));
    // A truncated two-byte sequence.
    assert!(!is_valid_utf8(&[0xC3]));
    // An overlong encoding of the null scalar.
    assert!(!is_valid_utf8(&[0xC0, 0x80]));
    // A surrogate, which UTF-8 never encodes.
    assert!(!is_valid_utf8(&[0xED, 0xA0, 0x80]));
    // A scalar past the Unicode maximum.
    assert!(!is_valid_utf8(&[0xF4, 0x90, 0x80, 0x80]));
    // A well-formed four-byte scalar.
    assert!(is_valid_utf8(&[0xF0, 0x90, 0x80, 0x80]));
}

#[test]
fn errors_classify_fatal_and_transient() {
    let blocked = RussulaError::NetworkBlocked { dbg: String::new() };
    assert!(!blocked.is_fatal());
    let refused = RussulaError::NetworkConnectionRefused { dbg: String::new() };
    assert!(refused.is_fatal());
    let read = RussulaError::ReadFail { dbg: String::new() };
    assert!(read.is_fatal());
    let bad = RussulaError::BadMsg { dbg: String::new() };
    assert!(bad.is_fatal());
    let fail = RussulaError::NetworkFail { dbg: String::new() };
    assert!(fail.is_fatal());
}

#[test]
fn io_errors_map_into_the_transport_taxonomy() {
    let blocked = russula_error_from_io(&IoErrorKind::WouldBlock, String::from("wb"));
    assert!(matches!(blocked, RussulaError::NetworkBlocked { dbg: _ }));
    assert!(!blocked.is_fatal());
    let refused = russula_error_from_io(&IoErrorKind::ConnectionRefused, String::from("cr"));
    assert!(matches!(refused, RussulaError::NetworkConnectionRefused { dbg: _ }));
    let other = russula_error_from_io(&IoErrorKind::Other, String::from("io"));
    assert!(matches!(other, RussulaError::NetworkFail { dbg: _ }));
    assert_eq!(other.dbg(), "io");

    let exhausted = netbench_orchestrator::workflow::ConnectRetry::refusal_error();
    assert!(matches!(exhausted, RussulaError::NetworkConnectionRefused { dbg: _ }));
}
