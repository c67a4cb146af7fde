//! The audio output channel. Nothing of its protocol is handled; the
//! channel exists because the server answers on the file-system channel
//! only when this one is advertised beside it.

use vstd::prelude::*;

use crate::channel::{ChannelName, CompressionCondition, StaticVirtualChannel};
use crate::error::PduError;

verus! {

#[derive(Debug)]
pub struct Rdpsnd;

/// Identifier of the audio output channel: "rdpsnd", zero-padded.
pub open spec fn rdpsnd_name() -> Seq<u8> {
    seq![0x72u8, 0x64, 0x70, 0x73, 0x6E, 0x64, 0, 0]
}

impl Rdpsnd {
    pub fn new() -> (r: Self)
        ensures
            r == Rdpsnd,
    {
        Rdpsnd
    }
}

impl Default for Rdpsnd {
    fn default() -> (r: Self)
        ensures
            r == Rdpsnd,
    {
        Self::new()
    }
}

impl StaticVirtualChannel for Rdpsnd {
    open spec fn spec_channel_name(&self) -> Seq<u8> {
        rdpsnd_name()
    }

    open spec fn spec_compression(&self) -> CompressionCondition {
        CompressionCondition::Never
    }

    /// Every payload is accepted and dropped, with no response.
    open spec fn spec_response(&self, payload: Seq<u8>) -> Result<Seq<u8>, PduError> {
        Ok(Seq::empty())
    }

    fn channel_name(&self) -> (r: ChannelName) {
        let r = ChannelName::new([0x72u8, 0x64, 0x70, 0x73, 0x6E, 0x64, 0, 0]);
        assert(r.bytes@ =~= rdpsnd_name());
        r
    }

    fn compression_condition(&self) -> (r: CompressionCondition) {
        CompressionCondition::Never
    }

    fn process(&mut self, initiator_id: u16, channel_id: u16, payload: &[u8], output: &mut Vec<u8>) -> (r: Result<
        (),
        PduError,
    >) {
        assert(output@ =~= output@ + Seq::<u8>::empty());
        Ok(())
    }
}

} // verus!
