//! PDUs of the file-system redirection channel: the shared header that
//! opens every message, its two closed code tables, and the fixed-size
//! version-and-id PDU shared by the announce request and its reply.

use std::marker::PhantomData;

use vstd::prelude::*;

use crate::cursor::{
    le_u16, le_u32, lemma_u16_round_trip, lemma_u32_round_trip, u16_bytes, u32_bytes, write_u16, write_u32,
    ReadCursor,
};
use crate::error::PduError;

verus! {

/// A PDU type: something with a stable protocol name used in diagnostics.
pub trait Pdu {
    spec fn spec_name() -> &'static str;

    fn pdu_name() -> (r: &'static str)
        ensures
            r == Self::spec_name(),
    ;
}

#[derive(Debug, Clone, Copy, PartialEq, Eq, Structural)]
#[allow(non_camel_case_types)]
pub enum Component {
    RDPDR_CTYP_CORE,
    RDPDR_CTYP_PRN,
}

/// Wire code of each component.
pub open spec fn component_code(c: Component) -> u16 {
    match c {
        Component::RDPDR_CTYP_CORE => 0x4472,
        Component::RDPDR_CTYP_PRN => 0x5052,
    }
}

/// The component whose wire code is `v`, if there is one.
pub open spec fn component_of(v: u16) -> Option<Component> {
    if v == 0x4472 {
        Some(Component::RDPDR_CTYP_CORE)
    } else if v == 0x5052 {
        Some(Component::RDPDR_CTYP_PRN)
    } else {
        None
    }
}

impl Component {
    pub fn from_u16(v: u16) -> (r: Option<Component>)
        ensures
            r == component_of(v),
    {
        if v == 0x4472 {
            Some(Component::RDPDR_CTYP_CORE)
        } else if v == 0x5052 {
            Some(Component::RDPDR_CTYP_PRN)
        } else {
            None
        }
    }

    pub fn to_u16(&self) -> (r: u16)
        ensures
            r == component_code(*self),
    {
        match self {
            Component::RDPDR_CTYP_CORE => 0x4472,
            Component::RDPDR_CTYP_PRN => 0x5052,
        }
    }
}

/// The component table maps each member to a distinct code and back.
pub proof fn lemma_component_table(c: Component, v: u16)
    ensures
        component_of(component_code(c)) == Some(c),
        component_of(v) == Some(c) <==> component_code(c) == v,
{
}

#[derive(Debug, Clone, Copy, PartialEq, Eq, Structural)]
#[allow(non_camel_case_types)]
pub enum PacketId {
    PAKID_CORE_SERVER_ANNOUNCE,
    PAKID_CORE_CLIENTID_CONFIRM,
    PAKID_CORE_CLIENT_NAME,
    PAKID_CORE_DEVICELIST_ANNOUNCE,
    PAKID_CORE_DEVICE_REPLY,
    PAKID_CORE_DEVICE_IOREQUEST,
    PAKID_CORE_DEVICE_IOCOMPLETION,
    PAKID_CORE_SERVER_CAPABILITY,
    PAKID_CORE_CLIENT_CAPABILITY,
    PAKID_CORE_DEVICELIST_REMOVE,
    PAKID_PRN_CACHE_DATA,
    PAKID_CORE_USER_LOGGEDON,
    PAKID_PRN_USING_XPS,
}

/// Wire code of each packet id.
pub open spec fn packet_id_code(p: PacketId) -> u16 {
    match p {
        PacketId::PAKID_CORE_SERVER_ANNOUNCE => 0x496E,
        PacketId::PAKID_CORE_CLIENTID_CONFIRM => 0x4343,
        PacketId::PAKID_CORE_CLIENT_NAME => 0x434E,
        PacketId::PAKID_CORE_DEVICELIST_ANNOUNCE => 0x4441,
        PacketId::PAKID_CORE_DEVICE_REPLY => 0x6472,
        PacketId::PAKID_CORE_DEVICE_IOREQUEST => 0x4952,
        PacketId::PAKID_CORE_DEVICE_IOCOMPLETION => 0x4943,
        PacketId::PAKID_CORE_SERVER_CAPABILITY => 0x5350,
        PacketId::PAKID_CORE_CLIENT_CAPABILITY => 0x4350,
        PacketId::PAKID_CORE_DEVICELIST_REMOVE => 0x444D,
        PacketId::PAKID_PRN_CACHE_DATA => 0x5043,
        PacketId::PAKID_CORE_USER_LOGGEDON => 0x554C,
        PacketId::PAKID_PRN_USING_XPS => 0x5543,
    }
}

/// The packet id whose wire code is `v`, if there is one.
pub open spec fn packet_id_of(v: u16) -> Option<PacketId> {
    if v == 0x496E {
        Some(PacketId::PAKID_CORE_SERVER_ANNOUNCE)
    } else if v == 0x4343 {
        Some(PacketId::PAKID_CORE_CLIENTID_CONFIRM)
    } else if v == 0x434E {
        Some(PacketId::PAKID_CORE_CLIENT_NAME)
    } else if v == 0x4441 {
        Some(PacketId::PAKID_CORE_DEVICELIST_ANNOUNCE)
    } else if v == 0x6472 {
        Some(PacketId::PAKID_CORE_DEVICE_REPLY)
    } else if v == 0x4952 {
        Some(PacketId::PAKID_CORE_DEVICE_IOREQUEST)
    } else if v == 0x4943 {
        Some(PacketId::PAKID_CORE_DEVICE_IOCOMPLETION)
    } else if v == 0x5350 {
        Some(PacketId::PAKID_CORE_SERVER_CAPABILITY)
    } else if v == 0x4350 {
        Some(PacketId::PAKID_CORE_CLIENT_CAPABILITY)
    } else if v == 0x444D {
        Some(PacketId::PAKID_CORE_DEVICELIST_REMOVE)
    } else if v == 0x5043 {
        Some(PacketId::PAKID_PRN_CACHE_DATA)
    } else if v == 0x554C {
        Some(PacketId::PAKID_CORE_USER_LOGGEDON)
    } else if v == 0x5543 {
        Some(PacketId::PAKID_PRN_USING_XPS)
    } else {
        None
    }
}

impl PacketId {
    pub fn from_u16(v: u16) -> (r: Option<PacketId>)
        ensures
            r == packet_id_of(v),
    {
        if v == 0x496E {
            Some(PacketId::PAKID_CORE_SERVER_ANNOUNCE)
        } else if v == 0x4343 {
            Some(PacketId::PAKID_CORE_CLIENTID_CONFIRM)
        } else if v == 0x434E {
            Some(PacketId::PAKID_CORE_CLIENT_NAME)
        } else if v == 0x4441 {
            Some(PacketId::PAKID_CORE_DEVICELIST_ANNOUNCE)
        } else if v == 0x6472 {
            Some(PacketId::PAKID_CORE_DEVICE_REPLY)
        } else if v == 0x4952 {
            Some(PacketId::PAKID_CORE_DEVICE_IOREQUEST)
        } else if v == 0x4943 {
            Some(PacketId::PAKID_CORE_DEVICE_IOCOMPLETION)
        } else if v == 0x5350 {
            Some(PacketId::PAKID_CORE_SERVER_CAPABILITY)
        } else if v == 0x4350 {
            Some(PacketId::PAKID_CORE_CLIENT_CAPABILITY)
        } else if v == 0x444D {
            Some(PacketId::PAKID_CORE_DEVICELIST_REMOVE)
        } else if v == 0x5043 {
            Some(PacketId::PAKID_PRN_CACHE_DATA)
        } else if v == 0x554C {
            Some(PacketId::PAKID_CORE_USER_LOGGEDON)
        } else if v == 0x5543 {
            Some(PacketId::PAKID_PRN_USING_XPS)
        } else {
            None
        }
    }

    pub fn to_u16(&self) -> (r: u16)
        ensures
            r == packet_id_code(*self),
    {
        match self {
            PacketId::PAKID_CORE_SERVER_ANNOUNCE => 0x496E,
            PacketId::PAKID_CORE_CLIENTID_CONFIRM => 0x4343,
            PacketId::PAKID_CORE_CLIENT_NAME => 0x434E,
            PacketId::PAKID_CORE_DEVICELIST_ANNOUNCE => 0x4441,
            PacketId::PAKID_CORE_DEVICE_REPLY => 0x6472,
            PacketId::PAKID_CORE_DEVICE_IOREQUEST => 0x4952,
            PacketId::PAKID_CORE_DEVICE_IOCOMPLETION => 0x4943,
            PacketId::PAKID_CORE_SERVER_CAPABILITY => 0x5350,
            PacketId::PAKID_CORE_CLIENT_CAPABILITY => 0x4350,
            PacketId::PAKID_CORE_DEVICELIST_REMOVE => 0x444D,
            PacketId::PAKID_PRN_CACHE_DATA => 0x5043,
            PacketId::PAKID_CORE_USER_LOGGEDON => 0x554C,
            PacketId::PAKID_PRN_USING_XPS => 0x5543,
        }
    }
}

/// The packet-id table maps each member to a distinct code and back.
pub proof fn lemma_packet_id_table(p: PacketId, v: u16)
    ensures
        packet_id_of(packet_id_code(p)) == Some(p),
        packet_id_of(v) == Some(p) <==> packet_id_code(p) == v,
{
}

/// Common prefix of every message on the channel: which sub-protocol it
/// belongs to and which message of it this is.
#[derive(Debug, Clone, Copy, PartialEq, Eq, Structural)]
pub struct SharedHeader {
    pub component: Component,
    pub packet_id: PacketId,
}

/// Size of the shared header on the wire.
pub const SHARED_HEADER_SIZE: usize = 4;

impl SharedHeader {
    /// The bytes of the header on the wire.
    pub open spec fn wire(&self) -> Seq<u8> {
        u16_bytes(component_code(self.component)) + u16_bytes(packet_id_code(self.packet_id))
    }

    /// What decoding yields from the unread bytes `b`.
    pub open spec fn decode_result(b: Seq<u8>) -> Result<SharedHeader, PduError> {
        if b.len() < 4 {
            Err(PduError::NotEnoughBytes { field: "SharedHeader", received: b.len() as usize, expected: 4 })
        } else if component_of(le_u16(b[0], b[1])) is None {
            Err(PduError::InvalidField { field: "Component", reason: "invalid value" })
        } else if packet_id_of(le_u16(b[2], b[3])) is None {
            Err(PduError::InvalidField { field: "PacketId", reason: "invalid value" })
        } else {
            Ok(
                SharedHeader {
                    component: component_of(le_u16(b[0], b[1]))->Some_0,
                    packet_id: packet_id_of(le_u16(b[2], b[3]))->Some_0,
                },
            )
        }
    }

    /// Reads a header. Both codes must belong to their tables: a header is
    /// never guessed at, since a wrong one would misroute the rest of the
    /// message. On success exactly four bytes are consumed.
    pub fn decode(src: &mut ReadCursor) -> (r: Result<SharedHeader, PduError>)
        requires
            old(src).wf(),
        ensures
            final(src).wf(),
            final(src).data() == old(src).data(),
            r == Self::decode_result(old(src).rest()),
            r is Ok ==> final(src).position() == old(src).position() + 4,
    {
        if src.len() < SHARED_HEADER_SIZE {
            return Err(PduError::NotEnoughBytes { field: "SharedHeader", received: src.len(), expected: 4 });
        }
        let c = src.read_u16("Component")?;
        let component = match Component::from_u16(c) {
            Some(component) => component,
            None => {
                return Err(PduError::InvalidField { field: "Component", reason: "invalid value" });
            },
        };
        let p = src.read_u16("PacketId")?;
        let packet_id = match PacketId::from_u16(p) {
            Some(packet_id) => packet_id,
            None => {
                return Err(PduError::InvalidField { field: "PacketId", reason: "invalid value" });
            },
        };
        Ok(SharedHeader { component, packet_id })
    }

    /// Appends the header's four bytes.
    pub fn encode(&self, dst: &mut Vec<u8>)
        ensures
            final(dst)@ == old(dst)@ + self.wire(),
    {
        write_u16(dst, self.component.to_u16());
        write_u16(dst, self.packet_id.to_u16());
        assert(dst@ =~= old(dst)@ + self.wire());
    }

    pub fn size(&self) -> (r: usize)
        ensures
            r == self.wire().len(),
    {
        SHARED_HEADER_SIZE
    }
}

/// A header is rejected when its first code is not a component, with an
/// error naming `Component`, and otherwise when its second code is not a
/// packet id, with an error naming `PacketId`.
pub proof fn lemma_header_rejection(b: Seq<u8>)
    requires
        b.len() >= 4,
    ensures
        component_of(le_u16(b[0], b[1])) is None ==> SharedHeader::decode_result(b) == Err::<SharedHeader, PduError>(
            PduError::InvalidField { field: "Component", reason: "invalid value" },
        ),
        component_of(le_u16(b[0], b[1])) is Some && packet_id_of(le_u16(b[2], b[3])) is None
            ==> SharedHeader::decode_result(b) == Err::<SharedHeader, PduError>(
            PduError::InvalidField { field: "PacketId", reason: "invalid value" },
        ),
{
}

/// Decoding the encoding of a header gives back that header, and the
/// encoding is as long as the header reports.
pub proof fn lemma_shared_header_round_trip(h: SharedHeader, tail: Seq<u8>)
    ensures
        SharedHeader::decode_result(h.wire() + tail) == Ok::<SharedHeader, PduError>(h),
        h.wire().len() == SHARED_HEADER_SIZE,
{
    let b = h.wire() + tail;
    lemma_u16_round_trip(component_code(h.component));
    lemma_u16_round_trip(packet_id_code(h.packet_id));
    lemma_component_table(h.component, component_code(h.component));
    lemma_packet_id_table(h.packet_id, packet_id_code(h.packet_id));
    assert(b[0] == u16_bytes(component_code(h.component))[0]);
    assert(b[1] == u16_bytes(component_code(h.component))[1]);
    assert(b[2] == u16_bytes(packet_id_code(h.packet_id))[0]);
    assert(b[3] == u16_bytes(packet_id_code(h.packet_id))[1]);
}

/// A fixed-size PDU of two version numbers and a client id, shared by
/// several messages of the same shape. `T` names the message, for
/// diagnostics only: it has no effect on the bytes.
pub struct VersionAndIdPDU<T: Pdu> {
    version_major: u16,
    version_minor: u16,
    pub client_id: u32,
    _phantom: PhantomData<T>,
}

/// Size of a version-and-id PDU on the wire.
pub const VERSION_AND_ID_SIZE: usize = 8;

impl<T: Pdu> VersionAndIdPDU<T> {
    pub closed spec fn major(&self) -> u16 {
        self.version_major
    }

    pub closed spec fn minor(&self) -> u16 {
        self.version_minor
    }

    pub closed spec fn id(&self) -> u32 {
        self.client_id
    }

    /// The bytes of the PDU on the wire.
    pub open spec fn wire(&self) -> Seq<u8> {
        u16_bytes(self.major()) + u16_bytes(self.minor()) + u32_bytes(self.id())
    }

    /// `r` holds the fields that the first eight bytes of `b` encode.
    pub open spec fn decoded_from(b: Seq<u8>, r: Self) -> bool {
        &&& b.len() >= 8
        &&& r.major() == le_u16(b[0], b[1])
        &&& r.minor() == le_u16(b[2], b[3])
        &&& r.id() == le_u32(b[4], b[5], b[6], b[7])
    }

    /// The PDU with the given fields.
    pub closed spec fn new_spec(version_major: u16, version_minor: u16, client_id: u32) -> Self {
        VersionAndIdPDU { version_major, version_minor, client_id, _phantom: PhantomData }
    }

    pub proof fn lemma_new_spec(version_major: u16, version_minor: u16, client_id: u32)
        ensures
            Self::new_spec(version_major, version_minor, client_id).major() == version_major,
            Self::new_spec(version_major, version_minor, client_id).minor() == version_minor,
            Self::new_spec(version_major, version_minor, client_id).id() == client_id,
    {
    }

    pub fn new(version_major: u16, version_minor: u16, client_id: u32) -> (r: Self)
        ensures
            r.major() == version_major,
            r.minor() == version_minor,
            r.id() == client_id,
    {
        VersionAndIdPDU { version_major, version_minor, client_id, _phantom: PhantomData }
    }

    pub fn client_id(&self) -> (r: u32)
        ensures
            r == self.id(),
    {
        self.client_id
    }

    pub fn version_major(&self) -> (r: u16)
        ensures
            r == self.major(),
    {
        self.version_major
    }

    pub fn version_minor(&self) -> (r: u16)
        ensures
            r == self.minor(),
    {
        self.version_minor
    }

    /// Reads the eight bytes of the PDU. With fewer left the decode fails,
    /// naming the PDU, and nothing is consumed.
    pub fn decode(src: &mut ReadCursor) -> (r: Result<Self, PduError>)
        requires
            old(src).wf(),
        ensures
            final(src).wf(),
            final(src).data() == old(src).data(),
            old(src).rest().len() >= 8 ==> {
                &&& r is Ok
                &&& Self::decoded_from(old(src).rest(), r->Ok_0)
                &&& final(src).position() == old(src).position() + 8
            },
            old(src).rest().len() < 8 ==> {
                &&& r matches Err(PduError::NotEnoughBytes { field, received, expected })
                &&& field == T::spec_name()
                &&& received == old(src).rest().len()
                &&& expected == 8
                &&& final(src).position() == old(src).position()
            },
    {
        if src.len() < VERSION_AND_ID_SIZE {
            return Err(PduError::NotEnoughBytes { field: T::pdu_name(), received: src.len(), expected: 8 });
        }
        let version_major = src.read_u16("versionMajor")?;
        let version_minor = src.read_u16("versionMinor")?;
        let client_id = src.read_u32("clientId")?;
        Ok(VersionAndIdPDU { version_major, version_minor, client_id, _phantom: PhantomData })
    }

    /// Appends the eight bytes of the PDU. This never fails.
    pub fn encode(&self, dst: &mut Vec<u8>) -> (r: Result<(), PduError>)
        ensures
            r is Ok,
            final(dst)@ == old(dst)@ + self.wire(),
    {
        write_u16(dst, self.version_major);
        write_u16(dst, self.version_minor);
        write_u32(dst, self.client_id);
        assert(dst@ =~= old(dst)@ + self.wire());
        Ok(())
    }

    /// Protocol name of the message, for diagnostics.
    pub fn name(&self) -> (r: &'static str)
        ensures
            r == T::spec_name(),
    {
        T::pdu_name()
    }

    pub fn size(&self) -> (r: usize)
        ensures
            r == self.wire().len(),
    {
        VERSION_AND_ID_SIZE
    }
}

/// Decoding the encoding of a version-and-id PDU gives back its fields, and
/// the encoding is as long as `size` reports.
pub proof fn lemma_version_and_id_round_trip<T: Pdu>(
    x: VersionAndIdPDU<T>,
    tail: Seq<u8>,
    y: VersionAndIdPDU<T>,
)
    requires
        VersionAndIdPDU::<T>::decoded_from(x.wire() + tail, y),
    ensures
        y == x,
        x.wire().len() == VERSION_AND_ID_SIZE,
{
    let b = x.wire() + tail;
    lemma_u16_round_trip(x.major());
    lemma_u16_round_trip(x.minor());
    lemma_u32_round_trip(x.id());
    assert(b[0] == u16_bytes(x.major())[0]);
    assert(b[1] == u16_bytes(x.major())[1]);
    assert(b[2] == u16_bytes(x.minor())[0]);
    assert(b[3] == u16_bytes(x.minor())[1]);
    assert(b[4] == u32_bytes(x.id())[0]);
    assert(b[5] == u32_bytes(x.id())[1]);
    assert(b[6] == u32_bytes(x.id())[2]);
    assert(b[7] == u32_bytes(x.id())[3]);
}

/// Tag of the announce request that the server sends first.
pub struct ServerAnnounceRequest_;

impl Pdu for ServerAnnounceRequest_ {
    open spec fn spec_name() -> &'static str {
        "ServerAnnounceRequest"
    }

    fn pdu_name() -> (r: &'static str) {
        "ServerAnnounceRequest"
    }
}

pub type ServerAnnounceRequest = VersionAndIdPDU<ServerAnnounceRequest_>;

/// Tag of the client's reply to the announce request.
pub struct ClientAnnounceReply_;

impl Pdu for ClientAnnounceReply_ {
    open spec fn spec_name() -> &'static str {
        "ClientAnnounceReply"
    }

    fn pdu_name() -> (r: &'static str) {
        "ClientAnnounceReply"
    }
}

pub type ClientAnnounceReply = VersionAndIdPDU<ClientAnnounceReply_>;

} // verus!
