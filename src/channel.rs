//! The capability that every static virtual channel handler offers.

use vstd::prelude::*;

use crate::error::PduError;

verus! {

/// Fixed eight-byte ASCII identifier of a static virtual channel, padded
/// with zero bytes.
#[derive(Debug, Clone, Copy, PartialEq, Eq)]
pub struct ChannelName {
    pub bytes: [u8; 8],
}

impl ChannelName {
    pub fn new(bytes: [u8; 8]) -> (r: Self)
        ensures
            r.bytes@ == bytes@,
    {
        ChannelName { bytes }
    }

    pub fn as_bytes(&self) -> (r: &[u8; 8])
        ensures
            r@ == self.bytes@,
    {
        &self.bytes
    }
}

/// Whether the transport should (de)compress the bytes of a channel. The
/// channel itself never compresses anything.
#[derive(Debug, Clone, Copy, PartialEq, Eq, Structural)]
pub enum CompressionCondition {
    Never,
    WhenRdpDataIsCompressed,
    Always,
}

/// A static virtual channel handler. The engine calls `process` once for
/// each inbound frame addressed to the channel, in wire order; the handler
/// changes only its own state and appends its response bytes to `output`.
pub trait StaticVirtualChannel {
    /// The identifier the channel is negotiated under.
    spec fn spec_channel_name(&self) -> Seq<u8>;

    /// The compression policy the channel advertises.
    spec fn spec_compression(&self) -> CompressionCondition;

    /// What processing `payload` yields: the bytes to append, or the error.
    spec fn spec_response(&self, payload: Seq<u8>) -> Result<Seq<u8>, PduError>;

    fn channel_name(&self) -> (r: ChannelName)
        ensures
            r.bytes@ == self.spec_channel_name(),
    ;

    fn compression_condition(&self) -> (r: CompressionCondition)
        ensures
            r == self.spec_compression(),
    ;

    fn process(&mut self, initiator_id: u16, channel_id: u16, payload: &[u8], output: &mut Vec<u8>) -> (r: Result<
        (),
        PduError,
    >)
        ensures
            match old(self).spec_response(payload@) {
                Ok(bytes) => r is Ok && final(output)@ == old(output)@ + bytes,
                Err(e) => r == Err::<(), PduError>(e) && final(output)@ == old(output)@,
            },
    ;
}

} // verus!

use crate::rdpdr::Rdpdr;
use crate::rdpsnd::Rdpsnd;

verus! {

/// The static channels this client implements, so that one registry can
/// hold both: the file-system channel is answered only when the audio
/// channel is advertised beside it.
#[derive(Debug)]
pub enum KnownChannel {
    Rdpdr(Rdpdr),
    Rdpsnd(Rdpsnd),
}

impl StaticVirtualChannel for KnownChannel {
    open spec fn spec_channel_name(&self) -> Seq<u8> {
        match self {
            KnownChannel::Rdpdr(c) => c.spec_channel_name(),
            KnownChannel::Rdpsnd(c) => c.spec_channel_name(),
        }
    }

    open spec fn spec_compression(&self) -> CompressionCondition {
        match self {
            KnownChannel::Rdpdr(c) => c.spec_compression(),
            KnownChannel::Rdpsnd(c) => c.spec_compression(),
        }
    }

    open spec fn spec_response(&self, payload: Seq<u8>) -> Result<Seq<u8>, PduError> {
        match self {
            KnownChannel::Rdpdr(c) => c.spec_response(payload),
            KnownChannel::Rdpsnd(c) => c.spec_response(payload),
        }
    }

    fn channel_name(&self) -> (r: ChannelName) {
        match self {
            KnownChannel::Rdpdr(c) => c.channel_name(),
            KnownChannel::Rdpsnd(c) => c.channel_name(),
        }
    }

    fn compression_condition(&self) -> (r: CompressionCondition) {
        match self {
            KnownChannel::Rdpdr(c) => c.compression_condition(),
            KnownChannel::Rdpsnd(c) => c.compression_condition(),
        }
    }

    fn process(&mut self, initiator_id: u16, channel_id: u16, payload: &[u8], output: &mut Vec<u8>) -> (r: Result<
        (),
        PduError,
    >) {
        match self {
            KnownChannel::Rdpdr(c) => c.process(initiator_id, channel_id, payload, output),
            KnownChannel::Rdpsnd(c) => c.process(initiator_id, channel_id, payload, output),
        }
    }
}

} // verus!
