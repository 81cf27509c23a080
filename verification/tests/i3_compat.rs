use gar::ipc::i3_compat::{
    decode_header, encode_message, read_message, write_event, write_message, write_response, ByteReader,
    EventType, I3Message, IpcError, MessageType, EVENT_MASK, HEADER_SIZE,
};

#[test]
fn test_write_read_roundtrip() {
    let mut buf = Vec::new();
    write_message(&mut buf, 1, b"{\"test\": true}").unwrap();

    let mut cursor = ByteReader::new(buf);
    let msg = read_message(&mut cursor).unwrap().unwrap();

    assert_eq!(msg.msg_type, 1);
    assert_eq!(msg.payload_str().unwrap(), "{\"test\": true}");
}

#[test]
fn test_event_type_wire_format() {
    assert_eq!(EventType::Workspace.to_wire(), 0x80000000);
    assert_eq!(EventType::Output.to_wire(), 0x80000001);
}

#[test]
fn encoded_header_layout() {
    let bytes = encode_message(0x0102, &[9, 8, 7]);
    assert_eq!(bytes.len(), HEADER_SIZE + 3);
    assert_eq!(&bytes[0..6], b"i3-ipc");
    assert_eq!(&bytes[6..10], &[3, 0, 0, 0]);
    assert_eq!(&bytes[10..14], &[0x02, 0x01, 0, 0]);
    assert_eq!(&bytes[14..], &[9, 8, 7]);
}

#[test]
fn short_header_reads_nothing() {
    let mut r = ByteReader::new(b"i3-ip".to_vec());
    assert!(matches!(read_message(&mut r), Ok(None)));
    assert_eq!(r.pos, 5);
}

#[test]
fn bad_magic_is_refused() {
    let mut bytes = encode_message(1, b"x");
    bytes[0] = b'X';
    let mut r = ByteReader::new(bytes);
    assert!(matches!(read_message(&mut r), Err(IpcError::InvalidMagic)));
}

#[test]
fn oversized_payload_is_refused() {
    let mut header = b"i3-ipc".to_vec();
    header.extend_from_slice(&(16 * 1024 * 1024 + 1u32).to_le_bytes());
    header.extend_from_slice(&7u32.to_le_bytes());
    assert_eq!(decode_header(&header), Err(IpcError::MessageTooLarge));
    let mut r = ByteReader::new(header);
    assert!(matches!(read_message(&mut r), Err(IpcError::MessageTooLarge)));
}

#[test]
fn truncated_payload_is_an_eof() {
    let mut bytes = encode_message(2, b"abcdef");
    bytes.truncate(HEADER_SIZE + 3);
    let mut r = ByteReader::new(bytes);
    assert!(matches!(read_message(&mut r), Err(IpcError::UnexpectedEof)));
    assert_eq!(r.pos, HEADER_SIZE + 3);
}

#[test]
fn two_messages_in_a_row() {
    let mut buf = Vec::new();
    write_response(&mut buf, 1, "[]").unwrap();
    write_event(&mut buf, EventType::Workspace, "{\"change\":\"focus\"}").unwrap();
    let mut r = ByteReader::new(buf);
    let first = read_message(&mut r).unwrap().unwrap();
    assert_eq!(first.msg_type, 1);
    assert_eq!(first.payload, b"[]".to_vec());
    assert!(!first.is_event());
    let second = read_message(&mut r).unwrap().unwrap();
    assert!(second.is_event());
    assert_eq!(second.base_type(), 0);
    assert_eq!(second.msg_type, EVENT_MASK);
    assert!(matches!(read_message(&mut r), Ok(None)));
}

#[test]
fn message_types_by_number() {
    assert_eq!(MessageType::from_u32(0), Some(MessageType::RunCommand));
    assert_eq!(MessageType::from_u32(7), Some(MessageType::GetVersion));
    assert_eq!(MessageType::from_u32(12), Some(MessageType::GetBindingState));
    assert_eq!(MessageType::from_u32(13), None);
    assert_eq!(MessageType::GetOutputs.code(), 3);
    assert_eq!(EventType::Tick.to_wire(), 0x80000007);
}

#[test]
fn invalid_utf8_payload() {
    let msg = I3Message::new(0, vec![0xff, 0xfe]);
    assert!(msg.payload_str().is_err());
    let base = I3Message::new(0x80000003, Vec::new());
    assert_eq!(base.base_type(), 3);
}
