//! Client-side active-session engine of a remote desktop protocol: a
//! bounds-checked byte codec, the file-system channel's shared header and
//! announce PDUs, static virtual channel handlers, and the per-frame
//! decisions of the active stage.

mod channel;
mod cursor;
mod efs;
mod error;
mod outbuf;
mod rdpdr;
mod rdpsnd;
mod session;

pub use channel::{ChannelName, CompressionCondition, KnownChannel, StaticVirtualChannel};
pub use cursor::{
    le_u16, le_u32, lemma_u16_round_trip, lemma_u32_round_trip, u16_bytes, u32_bytes, write_u16, write_u32, write_u8,
    ReadCursor,
};
pub use efs::{
    component_code, component_of, lemma_component_table, lemma_header_rejection, lemma_packet_id_table,
    lemma_shared_header_round_trip, lemma_version_and_id_round_trip, packet_id_code, packet_id_of,
    ClientAnnounceReply, ClientAnnounceReply_, Component, PacketId, Pdu, ServerAnnounceRequest,
    ServerAnnounceRequest_, SharedHeader, VersionAndIdPDU, SHARED_HEADER_SIZE, VERSION_AND_ID_SIZE,
};
pub use error::PduError;
pub use outbuf::bytes_mut_contents;
pub use rdpdr::{
    announce_reply_bytes, announce_response, lemma_dispatch_complete, lemma_reply_correlation, rdpdr_name,
    rdpdr_response, Rdpdr, REPLY_VERSION_MAJOR, REPLY_VERSION_MINOR,
};
pub use rdpsnd::{rdpsnd_name, Rdpsnd};
pub use session::{
    fast_path_outputs, header_failure_outputs, is_first_with_id, lemma_null_length_tolerated,
    lemma_response_before_update, lemma_termination_signals, not_joined, slow_path_outputs, ActiveStageOutput,
    ActiveStageProcessor, ConnectionSequenceResult, FastPathUpdate, Frame, Rectangle, SessionError, SlowPathFrame,
    StaticMessage,
};
