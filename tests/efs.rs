use rdp_session::{
    ClientAnnounceReply, Component, PacketId, PduError, ReadCursor, ServerAnnounceRequest, SharedHeader,
};

#[test]
fn shared_header_decodes_known_codes() {
    let bytes = [0x72u8, 0x44, 0x6E, 0x49, 0x99];
    let mut cursor = ReadCursor::new(&bytes);
    let header = SharedHeader::decode(&mut cursor).unwrap();
    assert_eq!(header.component, Component::RDPDR_CTYP_CORE);
    assert_eq!(header.packet_id, PacketId::PAKID_CORE_SERVER_ANNOUNCE);
    assert_eq!(cursor.pos(), 4);
}

#[test]
fn shared_header_rejects_unknown_component() {
    let bytes = [0x00u8, 0x00, 0x6E, 0x49];
    let e = SharedHeader::decode(&mut ReadCursor::new(&bytes)).unwrap_err();
    assert_eq!(e, PduError::InvalidField { field: "Component", reason: "invalid value" });
}

#[test]
fn shared_header_rejects_unknown_packet_id() {
    let bytes = [0x52u8, 0x50, 0x00, 0x00];
    let e = SharedHeader::decode(&mut ReadCursor::new(&bytes)).unwrap_err();
    assert_eq!(e, PduError::InvalidField { field: "PacketId", reason: "invalid value" });
}

#[test]
fn shared_header_too_short() {
    let bytes = [0x72u8, 0x44, 0x6E];
    let e = SharedHeader::decode(&mut ReadCursor::new(&bytes)).unwrap_err();
    assert_eq!(e, PduError::NotEnoughBytes { field: "SharedHeader", received: 3, expected: 4 });
}

#[test]
fn shared_header_round_trip_every_code() {
    let components = [Component::RDPDR_CTYP_CORE, Component::RDPDR_CTYP_PRN];
    let packet_ids = [
        PacketId::PAKID_CORE_SERVER_ANNOUNCE,
        PacketId::PAKID_CORE_CLIENTID_CONFIRM,
        PacketId::PAKID_CORE_CLIENT_NAME,
        PacketId::PAKID_CORE_DEVICELIST_ANNOUNCE,
        PacketId::PAKID_CORE_DEVICE_REPLY,
        PacketId::PAKID_CORE_DEVICE_IOREQUEST,
        PacketId::PAKID_CORE_DEVICE_IOCOMPLETION,
        PacketId::PAKID_CORE_SERVER_CAPABILITY,
        PacketId::PAKID_CORE_CLIENT_CAPABILITY,
        PacketId::PAKID_CORE_DEVICELIST_REMOVE,
        PacketId::PAKID_PRN_CACHE_DATA,
        PacketId::PAKID_CORE_USER_LOGGEDON,
        PacketId::PAKID_PRN_USING_XPS,
    ];
    for component in components {
        for packet_id in packet_ids {
            let header = SharedHeader { component, packet_id };
            let mut out = Vec::new();
            header.encode(&mut out);
            assert_eq!(out.len(), header.size());
            let back = SharedHeader::decode(&mut ReadCursor::new(&out)).unwrap();
            assert_eq!(back, header);
        }
    }
}

#[test]
fn code_tables_match_wire_values() {
    assert_eq!(Component::from_u16(0x4472), Some(Component::RDPDR_CTYP_CORE));
    assert_eq!(Component::from_u16(0x5052), Some(Component::RDPDR_CTYP_PRN));
    assert_eq!(Component::from_u16(0x4473), None);
    assert_eq!(Component::RDPDR_CTYP_PRN.to_u16(), 0x5052);
    assert_eq!(PacketId::from_u16(0x5543), Some(PacketId::PAKID_PRN_USING_XPS));
    assert_eq!(PacketId::from_u16(0x4343), Some(PacketId::PAKID_CORE_CLIENTID_CONFIRM));
    assert_eq!(PacketId::from_u16(0x1234), None);
    assert_eq!(PacketId::PAKID_CORE_DEVICE_REPLY.to_u16(), 0x6472);
}

#[test]
fn version_and_id_round_trip() {
    let pdu = ServerAnnounceRequest::new(1, 12, 0xDEAD_BEEF);
    let mut out = Vec::new();
    pdu.encode(&mut out).unwrap();
    assert_eq!(out, vec![0x01, 0x00, 0x0C, 0x00, 0xEF, 0xBE, 0xAD, 0xDE]);
    assert_eq!(out.len(), pdu.size());
    assert_eq!(pdu.size(), 8);
    let back = ServerAnnounceRequest::decode(&mut ReadCursor::new(&out)).unwrap();
    assert_eq!(back.version_major(), 1);
    assert_eq!(back.version_minor(), 12);
    assert_eq!(back.client_id(), 0xDEAD_BEEF);
    assert_eq!(back.client_id, 0xDEAD_BEEF);
}

#[test]
fn version_and_id_too_short_names_the_pdu() {
    let bytes = [1u8, 0, 2, 0, 3, 0, 0];
    let mut cursor = ReadCursor::new(&bytes);
    let e = ServerAnnounceRequest::decode(&mut cursor).err().unwrap();
    assert_eq!(e, PduError::NotEnoughBytes { field: "ServerAnnounceRequest", received: 7, expected: 8 });
    assert_eq!(cursor.pos(), 0);
}

#[test]
fn pdu_names_are_distinct() {
    assert_eq!(ServerAnnounceRequest::new(0, 0, 0).name(), "ServerAnnounceRequest");
    assert_eq!(ClientAnnounceReply::new(0, 0, 0).name(), "ClientAnnounceReply");
}
