//! The file-system redirection channel. Of its protocol only the opening
//! exchange is handled: the server's announce request is answered with a
//! client announce reply carrying the same client id. Printer messages
//! and the other packet kinds are recognised and dropped without a
//! response.

use vstd::prelude::*;

use crate::channel::{ChannelName, CompressionCondition, StaticVirtualChannel};
use crate::cursor::{le_u32, u16_bytes, u32_bytes, ReadCursor};
use crate::efs::{
    lemma_shared_header_round_trip, lemma_version_and_id_round_trip, ClientAnnounceReply, Component, PacketId, Pdu,
    ServerAnnounceRequest, ServerAnnounceRequest_, SharedHeader,
};
use crate::error::PduError;

verus! {

/// Major version the client announces in its reply.
pub const REPLY_VERSION_MAJOR: u16 = 28;

/// Minor version the client announces in its reply.
pub const REPLY_VERSION_MINOR: u16 = 0;

/// Identifier of the file-system channel: "rdpdr", zero-padded.
pub open spec fn rdpdr_name() -> Seq<u8> {
    seq![0x72u8, 0x64, 0x70, 0x64, 0x72, 0, 0, 0]
}

/// The eight bytes of the reply to an announce request with id `client_id`.
pub open spec fn announce_reply_bytes(client_id: u32) -> Seq<u8> {
    u16_bytes(REPLY_VERSION_MAJOR) + u16_bytes(REPLY_VERSION_MINOR) + u32_bytes(client_id)
}

/// What the channel answers to the body `b` of an announce request (the
/// bytes after the shared header).
pub open spec fn announce_response(b: Seq<u8>) -> Result<Seq<u8>, PduError> {
    if b.len() < 8 {
        Err(
            PduError::NotEnoughBytes {
                field: ServerAnnounceRequest_::spec_name(),
                received: b.len() as usize,
                expected: 8,
            },
        )
    } else {
        Ok(announce_reply_bytes(le_u32(b[4], b[5], b[6], b[7])))
    }
}

/// What the channel answers to a whole inbound message `p`.
pub open spec fn rdpdr_response(p: Seq<u8>) -> Result<Seq<u8>, PduError> {
    match SharedHeader::decode_result(p) {
        Err(e) => Err(e),
        Ok(h) => if h.component == Component::RDPDR_CTYP_PRN {
            Ok(Seq::empty())
        } else if h.packet_id == PacketId::PAKID_CORE_SERVER_ANNOUNCE {
            announce_response(p.subrange(4, p.len() as int))
        } else {
            Ok(Seq::empty())
        },
    }
}

/// Every header with known codes is dispatched: a printer message or a
/// packet kind other than the announce request is dropped whole, with no
/// response and no error, and an announce request is answered from the
/// bytes after the header alone.
pub proof fn lemma_dispatch_complete(h: SharedHeader, body: Seq<u8>)
    ensures
        h.component == Component::RDPDR_CTYP_PRN || h.packet_id != PacketId::PAKID_CORE_SERVER_ANNOUNCE
            ==> rdpdr_response(h.wire() + body) == Ok::<Seq<u8>, PduError>(Seq::empty()),
        h.component == Component::RDPDR_CTYP_CORE && h.packet_id == PacketId::PAKID_CORE_SERVER_ANNOUNCE
            ==> rdpdr_response(h.wire() + body) == announce_response(body),
{
    lemma_shared_header_round_trip(h, body);
    assert((h.wire() + body).subrange(4, (h.wire() + body).len() as int) =~= body);
}

/// The reply to an announce request carries the request's client id
/// unchanged, and the fixed version numbers: decoding the bytes answered
/// to `body`, which decodes to `request`, gives them back.
pub proof fn lemma_reply_correlation(body: Seq<u8>, request: ServerAnnounceRequest, reply: ClientAnnounceReply)
    requires
        ServerAnnounceRequest::decoded_from(body, request),
        announce_response(body) is Ok,
        ClientAnnounceReply::decoded_from(announce_response(body)->Ok_0, reply),
    ensures
        reply.id() == request.id(),
        reply.major() == REPLY_VERSION_MAJOR,
        reply.minor() == REPLY_VERSION_MINOR,
{
    let model = ClientAnnounceReply::new_spec(REPLY_VERSION_MAJOR, REPLY_VERSION_MINOR, request.id());
    ClientAnnounceReply::lemma_new_spec(REPLY_VERSION_MAJOR, REPLY_VERSION_MINOR, request.id());
    assert(announce_response(body)->Ok_0 =~= model.wire() + Seq::empty());
    lemma_version_and_id_round_trip(model, Seq::empty(), reply);
}

#[derive(Debug)]
pub struct Rdpdr;

impl Rdpdr {
    pub fn new() -> (r: Self)
        ensures
            r == Rdpdr,
    {
        Rdpdr
    }

    /// The reply to an announce request: fixed version numbers and the
    /// request's own client id.
    pub fn announce_reply(request: &ServerAnnounceRequest) -> (r: ClientAnnounceReply)
        ensures
            r.id() == request.id(),
            r.major() == REPLY_VERSION_MAJOR,
            r.minor() == REPLY_VERSION_MINOR,
    {
        ClientAnnounceReply::new(REPLY_VERSION_MAJOR, REPLY_VERSION_MINOR, request.client_id())
    }

    /// Decodes an announce request from the rest of `payload` and appends
    /// the encoded reply to `output`.
    pub fn handle_server_announce(&mut self, payload: &mut ReadCursor, output: &mut Vec<u8>) -> (r: Result<
        (),
        PduError,
    >)
        requires
            old(payload).wf(),
        ensures
            final(payload).wf(),
            final(payload).data() == old(payload).data(),
            match announce_response(old(payload).rest()) {
                Ok(bytes) => r is Ok && final(output)@ == old(output)@ + bytes,
                Err(e) => r == Err::<(), PduError>(e) && final(output)@ == old(output)@,
            },
    {
        let ghost rest = payload.rest();
        let request = ServerAnnounceRequest::decode(payload)?;
        let reply = Self::announce_reply(&request);
        reply.encode(output)?;
        proof {
            assert(rest[4] == payload.data()[payload.position() - 4]);
        }
        Ok(())
    }
}

impl Default for Rdpdr {
    fn default() -> (r: Self)
        ensures
            r == Rdpdr,
    {
        Self::new()
    }
}

impl StaticVirtualChannel for Rdpdr {
    open spec fn spec_channel_name(&self) -> Seq<u8> {
        rdpdr_name()
    }

    open spec fn spec_compression(&self) -> CompressionCondition {
        CompressionCondition::WhenRdpDataIsCompressed
    }

    open spec fn spec_response(&self, payload: Seq<u8>) -> Result<Seq<u8>, PduError> {
        rdpdr_response(payload)
    }

    fn channel_name(&self) -> (r: ChannelName) {
        let r = ChannelName::new([0x72u8, 0x64, 0x70, 0x64, 0x72, 0, 0, 0]);
        assert(r.bytes@ =~= rdpdr_name());
        r
    }

    fn compression_condition(&self) -> (r: CompressionCondition) {
        CompressionCondition::WhenRdpDataIsCompressed
    }

    /// Printer messages are dropped right after the header, before any
    /// packet-id dispatch; packet kinds other than the announce request are
    /// dropped too. Neither is an error.
    fn process(&mut self, initiator_id: u16, channel_id: u16, payload: &[u8], output: &mut Vec<u8>) -> (r: Result<
        (),
        PduError,
    >) {
        let mut payload = ReadCursor::new(payload);
        let header = SharedHeader::decode(&mut payload)?;
        if let Component::RDPDR_CTYP_PRN = header.component {
            assert(output@ =~= output@ + Seq::<u8>::empty());
            return Ok(());
        }
        match header.packet_id {
            PacketId::PAKID_CORE_SERVER_ANNOUNCE => {
                assert(payload.rest() =~= payload.data().subrange(4, payload.data().len() as int));
                self.handle_server_announce(&mut payload, output)?;
            },
            _ => {
                assert(output@ =~= output@ + Seq::<u8>::empty());
                return Ok(());
            },
        }
        Ok(())
    }
}

} // verus!
