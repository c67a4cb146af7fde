use rdp_session::{
    ChannelName, ClientAnnounceReply, CompressionCondition, KnownChannel, PduError, ReadCursor, Rdpdr, Rdpsnd,
    ServerAnnounceRequest, StaticVirtualChannel, REPLY_VERSION_MAJOR, REPLY_VERSION_MINOR,
};

const ANNOUNCE: [u8; 12] = [0x72, 0x44, 0x6E, 0x49, 0x01, 0x00, 0x0C, 0x00, 0x78, 0x56, 0x34, 0x12];

#[test]
fn server_announce_is_answered_with_same_client_id() {
    let mut rdpdr = Rdpdr::new();
    let mut output = Vec::new();
    rdpdr.process(1007, 1004, &ANNOUNCE, &mut output).unwrap();
    assert_eq!(output.len(), 8);
    assert_eq!(output, vec![28, 0, 0, 0, 0x78, 0x56, 0x34, 0x12]);
    let reply = ClientAnnounceReply::decode(&mut ReadCursor::new(&output)).unwrap();
    assert_eq!(reply.client_id(), 0x1234_5678);
    assert_eq!(reply.version_major(), 28);
    assert_eq!(reply.version_minor(), 0);
}

#[test]
fn announce_request_decodes_trailing_fields() {
    let mut cursor = ReadCursor::new(&ANNOUNCE);
    cursor.read_u32("header").unwrap();
    let request = ServerAnnounceRequest::decode(&mut cursor).unwrap();
    assert_eq!(request.version_major(), 1);
    assert_eq!(request.version_minor(), 12);
    assert_eq!(request.client_id(), 0x1234_5678);
}

#[test]
fn announce_reply_correlates() {
    let request = ServerAnnounceRequest::new(1, 13, 7);
    let reply = Rdpdr::announce_reply(&request);
    assert_eq!(reply.client_id(), 7);
    assert_eq!(reply.version_major(), REPLY_VERSION_MAJOR);
    assert_eq!(reply.version_minor(), REPLY_VERSION_MINOR);
}

#[test]
fn handle_server_announce_appends_reply() {
    let mut rdpdr = Rdpdr::default();
    let body = [0x01u8, 0x00, 0x0C, 0x00, 0x02, 0x00, 0x00, 0x00];
    let mut cursor = ReadCursor::new(&body);
    let mut output = vec![0xEE];
    rdpdr.handle_server_announce(&mut cursor, &mut output).unwrap();
    assert_eq!(output, vec![0xEE, 28, 0, 0, 0, 2, 0, 0, 0]);
}

#[test]
fn short_announce_is_an_error_with_no_output() {
    let mut rdpdr = Rdpdr::new();
    let mut output = Vec::new();
    let e = rdpdr.process(1, 2, &ANNOUNCE[..10], &mut output).unwrap_err();
    assert_eq!(e, PduError::NotEnoughBytes { field: "ServerAnnounceRequest", received: 6, expected: 8 });
    assert!(output.is_empty());
}

#[test]
fn printer_messages_are_dropped() {
    let mut rdpdr = Rdpdr::new();
    let mut output = Vec::new();
    let bytes = [0x52u8, 0x50, 0x6E, 0x49, 1, 2, 3];
    rdpdr.process(1, 2, &bytes, &mut output).unwrap();
    assert!(output.is_empty());
}

#[test]
fn unimplemented_packets_are_dropped() {
    let mut rdpdr = Rdpdr::new();
    let mut output = Vec::new();
    let bytes = [0x72u8, 0x44, 0x50, 0x53, 9, 9];
    rdpdr.process(1, 2, &bytes, &mut output).unwrap();
    assert!(output.is_empty());
}

#[test]
fn bad_header_is_an_error() {
    let mut rdpdr = Rdpdr::new();
    let mut output = Vec::new();
    let e = rdpdr.process(1, 2, &[0x01, 0x02, 0x6E, 0x49], &mut output).unwrap_err();
    assert_eq!(e, PduError::InvalidField { field: "Component", reason: "invalid value" });
    let e = rdpdr.process(1, 2, &[0x72, 0x44, 0x00, 0x01], &mut output).unwrap_err();
    assert_eq!(e, PduError::InvalidField { field: "PacketId", reason: "invalid value" });
    assert!(output.is_empty());
}

#[test]
fn rdpsnd_accepts_and_ignores() {
    let mut rdpsnd = Rdpsnd::new();
    let mut output = vec![5u8];
    rdpsnd.process(1, 2, &[1, 2, 3], &mut output).unwrap();
    assert_eq!(output, vec![5]);
    let _ = Rdpsnd::default();
}

#[test]
fn channel_names_and_compression() {
    assert_eq!(Rdpdr::new().channel_name(), ChannelName::new(*b"rdpdr\0\0\0"));
    assert_eq!(Rdpsnd::new().channel_name().as_bytes(), b"rdpsnd\0\0");
    assert_eq!(Rdpdr::new().compression_condition(), CompressionCondition::WhenRdpDataIsCompressed);
    assert_eq!(Rdpsnd::new().compression_condition(), CompressionCondition::Never);
    let known = KnownChannel::Rdpsnd(Rdpsnd::new());
    assert_eq!(known.compression_condition(), CompressionCondition::Never);
    assert_eq!(KnownChannel::Rdpdr(Rdpdr::new()).channel_name().bytes, *b"rdpdr\0\0\0");
}
