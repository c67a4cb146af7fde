//! The active stage of a session: per-frame decisions that turn what the
//! slow-path and fast-path layers made of a frame into outputs for the
//! caller, and the registry that routes static virtual channel data to
//! its handler.
//!
//! Reading the frame header, decoding the MCS envelope and applying
//! fast-path updates to the framebuffer are done by the caller's
//! collaborators; what they report is handed in as a value.

use vstd::prelude::*;

use crate::channel::StaticVirtualChannel;
use crate::error::PduError;
use crate::outbuf::{bytes_mut_contents, bytes_mut_from_slice, bytes_mut_is_empty};

verus! {

/// A rectangle of the framebuffer, bounds inclusive.
#[derive(Debug, Clone, Copy, PartialEq, Eq, Structural)]
pub struct Rectangle {
    pub left: u16,
    pub top: u16,
    pub right: u16,
    pub bottom: u16,
}

/// Why a frame could not be processed.
#[derive(Debug)]
pub enum SessionError {
    /// A PDU failed to decode or encode.
    Pdu(PduError),
    /// The fast-path header declared a length of zero.
    NullLengthFastPath,
    /// The server announced a user-initiated disconnection.
    UnexpectedDisconnection,
    /// Data arrived on a channel id the session never joined.
    UnexpectedChannel(u16),
    /// Any other failure a collaborator reported, with its description.
    Other(String),
}

/// One result of processing a frame.
#[derive(Debug)]
pub enum ActiveStageOutput {
    /// Bytes to send back to the server.
    ResponseFrame(bytes::BytesMut),
    /// A region of the framebuffer that has just changed.
    GraphicsUpdate(Rectangle),
    /// The session is over: the caller must stop calling `process`.
    Terminate,
}

/// What the fast-path layer reported for one frame.
#[derive(Debug)]
pub struct FastPathUpdate {
    /// Bytes to send back, possibly none.
    pub response: bytes::BytesMut,
    /// Bounding rectangle of the pixels the frame changed, if any.
    pub update_region: Option<Rectangle>,
}

/// A slow-path frame as the MCS layer read it.
#[derive(Debug)]
pub enum SlowPathFrame {
    /// Data for a static virtual channel.
    ChannelData { channel_id: u16, payload: Vec<u8> },
    /// A frame the slow-path layer handled itself, with its outcome.
    Handled(Result<bytes::BytesMut, SessionError>),
}

/// A frame whose header has been classified.
#[derive(Debug)]
pub enum Frame {
    SlowPath(SlowPathFrame),
    FastPath(Result<FastPathUpdate, SessionError>),
}

/// What the connection sequence hands to the active stage: each joined
/// static channel's handler with the id it was joined under, the user's
/// initiator id and the id of the global channel.
pub struct ConnectionSequenceResult<C> {
    pub joined_static_channels: Vec<(C, u16)>,
    pub initiator_id: u16,
    pub global_channel_id: u16,
}

/// A message for the global channel, addressed for the transport to frame.
#[derive(Debug, PartialEq, Eq)]
pub struct StaticMessage {
    pub initiator_id: u16,
    pub channel_id: u16,
    pub payload: Vec<u8>,
}

/// `i` is the first position of `reg` whose channel id is `id`.
pub open spec fn is_first_with_id<C>(reg: Seq<(u16, C)>, id: u16, i: int) -> bool {
    &&& 0 <= i < reg.len()
    &&& reg[i].0 == id
    &&& forall|j: int| 0 <= j < i ==> reg[j].0 != id
}

/// No position of `reg` has channel id `id`.
pub open spec fn not_joined<C>(reg: Seq<(u16, C)>, id: u16) -> bool {
    forall|j: int| 0 <= j < reg.len() ==> reg[j].0 != id
}

/// The outputs of a slow-path frame whose processing gave `result`.
pub open spec fn slow_path_outputs(result: Result<bytes::BytesMut, SessionError>) -> Result<
    Seq<ActiveStageOutput>,
    SessionError,
> {
    match result {
        Ok(out) => Ok(seq![ActiveStageOutput::ResponseFrame(out)]),
        Err(SessionError::UnexpectedDisconnection) => Ok(seq![ActiveStageOutput::Terminate]),
        Err(SessionError::UnexpectedChannel(_)) => Ok(seq![ActiveStageOutput::Terminate]),
        Err(e) => Err(e),
    }
}

/// The outputs of a fast-path frame: the response first, when there is
/// one, then the changed region, when there is one.
pub open spec fn fast_path_outputs(u: FastPathUpdate) -> Seq<ActiveStageOutput> {
    let response: Seq<ActiveStageOutput> = if bytes_mut_contents(u.response).len() > 0 {
        seq![ActiveStageOutput::ResponseFrame(u.response)]
    } else {
        Seq::empty()
    };
    let update: Seq<ActiveStageOutput> = match u.update_region {
        Some(r) => seq![ActiveStageOutput::GraphicsUpdate(r)],
        None => Seq::empty(),
    };
    response + update
}

/// The outputs of a frame whose header could not be read: nothing when it
/// declared a null length, otherwise the error.
pub open spec fn header_failure_outputs(e: SessionError) -> Result<Seq<ActiveStageOutput>, SessionError> {
    match e {
        SessionError::NullLengthFastPath => Ok(Seq::empty()),
        _ => Err(e),
    }
}

/// A frame whose fast-path header declared a null length gives no output
/// and no error.
pub proof fn lemma_null_length_tolerated()
    ensures
        header_failure_outputs(SessionError::NullLengthFastPath) == Ok::<Seq<ActiveStageOutput>, SessionError>(
            Seq::empty(),
        ),
{
}

/// A user-initiated disconnection, or data on a channel never joined, ends
/// the session with exactly one `Terminate` and no error.
pub proof fn lemma_termination_signals(channel_id: u16)
    ensures
        slow_path_outputs(Err(SessionError::UnexpectedDisconnection)) == Ok::<
            Seq<ActiveStageOutput>,
            SessionError,
        >(seq![ActiveStageOutput::Terminate]),
        slow_path_outputs(Err(SessionError::UnexpectedChannel(channel_id))) == Ok::<
            Seq<ActiveStageOutput>,
            SessionError,
        >(seq![ActiveStageOutput::Terminate]),
{
}

/// A fast-path frame that both answers and repaints gives the response
/// first and the changed region second, never the other way round.
pub proof fn lemma_response_before_update(u: FastPathUpdate)
    requires
        bytes_mut_contents(u.response).len() > 0,
        u.update_region is Some,
    ensures
        fast_path_outputs(u) == seq![
            ActiveStageOutput::ResponseFrame(u.response),
            ActiveStageOutput::GraphicsUpdate(u.update_region->Some_0),
        ],
{
    assert(fast_path_outputs(u) =~= seq![
        ActiveStageOutput::ResponseFrame(u.response),
        ActiveStageOutput::GraphicsUpdate(u.update_region->Some_0),
    ]);
}

/// Drives one session: owns the channel registry, built once from the
/// connection sequence's result.
pub struct ActiveStageProcessor<C: StaticVirtualChannel> {
    channels: Vec<(u16, C)>,
    initiator_id: u16,
    global_channel_id: u16,
}

impl<C: StaticVirtualChannel> ActiveStageProcessor<C> {
    /// The registry: each joined channel id with its handler.
    pub closed spec fn registry(&self) -> Seq<(u16, C)> {
        self.channels@
    }

    pub closed spec fn spec_initiator_id(&self) -> u16 {
        self.initiator_id
    }

    pub closed spec fn spec_global_channel_id(&self) -> u16 {
        self.global_channel_id
    }

    /// Builds the registry from the joined channels, keyed by channel id.
    pub fn new(connection_sequence_result: ConnectionSequenceResult<C>) -> (r: Self)
        ensures
            r.registry().len() == connection_sequence_result.joined_static_channels@.len(),
            forall|i: int|
                0 <= i < r.registry().len() ==> r.registry()[i] == (
                #[trigger] connection_sequence_result.joined_static_channels@[i].1,
                connection_sequence_result.joined_static_channels@[i].0,
            ),
            r.spec_initiator_id() == connection_sequence_result.initiator_id,
            r.spec_global_channel_id() == connection_sequence_result.global_channel_id,
    {
        let ConnectionSequenceResult { joined_static_channels, initiator_id, global_channel_id } =
            connection_sequence_result;
        let ghost joined = joined_static_channels@;
        let mut rest = joined_static_channels;
        let mut reversed: Vec<(u16, C)> = Vec::new();
        while rest.len() > 0
            invariant
                rest@.len() + reversed@.len() == joined.len(),
                forall|i: int| 0 <= i < rest@.len() ==> #[trigger] rest@[i] == joined[i],
                forall|k: int|
                    0 <= k < reversed@.len() ==> #[trigger] reversed@[k] == (
                    joined[joined.len() - 1 - k].1,
                    joined[joined.len() - 1 - k].0,
                ),
            decreases rest@.len(),
        {
            let (handler, id) = rest.pop().unwrap();
            reversed.push((id, handler));
        }
        let mut channels: Vec<(u16, C)> = Vec::new();
        while reversed.len() > 0
            invariant
                reversed@.len() + channels@.len() == joined.len(),
                forall|k: int|
                    0 <= k < reversed@.len() ==> #[trigger] reversed@[k] == (
                    joined[joined.len() - 1 - k].1,
                    joined[joined.len() - 1 - k].0,
                ),
                forall|i: int| 0 <= i < channels@.len() ==> #[trigger] channels@[i] == (joined[i].1, joined[i].0),
            decreases reversed@.len(),
        {
            let entry = reversed.pop().unwrap();
            channels.push(entry);
        }
        ActiveStageProcessor { channels, initiator_id, global_channel_id }
    }

    /// Position of the handler registered under `channel_id`, if any.
    pub fn find_channel(&self, channel_id: u16) -> (r: Option<usize>)
        ensures
            match r {
                Some(i) => is_first_with_id(self.registry(), channel_id, i as int),
                None => not_joined(self.registry(), channel_id),
            },
    {
        let mut i: usize = 0;
        while i < self.channels.len()
            invariant
                i <= self.channels@.len(),
                forall|j: int| 0 <= j < i ==> self.channels@[j].0 != channel_id,
            decreases self.channels@.len() - i,
        {
            if self.channels[i].0 == channel_id {
                return Some(i);
            }
            i = i + 1;
        }
        None
    }

    /// Hands `payload` to the handler registered under `channel_id` and
    /// returns the bytes it answered with. A channel id that was never
    /// joined is a protocol violation by the peer. Only that handler's
    /// state changes; the registry keeps its ids and order.
    pub fn route_channel_data(&mut self, channel_id: u16, payload: &[u8]) -> (r: Result<
        bytes::BytesMut,
        SessionError,
    >)
        ensures
            final(self).registry().len() == old(self).registry().len(),
            forall|j: int|
                0 <= j < old(self).registry().len() ==> #[trigger] final(self).registry()[j].0
                    == old(self).registry()[j].0,
            forall|j: int|
                0 <= j < old(self).registry().len() && old(self).registry()[j].0 != channel_id
                    ==> #[trigger] final(self).registry()[j] == old(self).registry()[j],
            final(self).spec_initiator_id() == old(self).spec_initiator_id(),
            final(self).spec_global_channel_id() == old(self).spec_global_channel_id(),
            not_joined(old(self).registry(), channel_id) ==> (r matches Err(
                SessionError::UnexpectedChannel(id),
            ) && id == channel_id),
            forall|i: int|
                is_first_with_id(old(self).registry(), channel_id, i) ==> match #[trigger] old(
                    self,
                ).registry()[i].1.spec_response(payload@) {
                    Ok(bytes) => r is Ok && bytes_mut_contents(r->Ok_0) == bytes,
                    Err(e) => r matches Err(SessionError::Pdu(pe)) && pe == e,
                },
    {
        let i = match self.find_channel(channel_id) {
            Some(i) => i,
            None => {
                return Err(SessionError::UnexpectedChannel(channel_id));
            },
        };
        let ghost reg = self.channels@;
        let mut entry = self.channels.remove(i);
        let mut output: Vec<u8> = Vec::new();
        let result = entry.1.process(self.initiator_id, channel_id, payload, &mut output);
        self.channels.insert(i, entry);
        proof {
            assert forall|j: int| 0 <= j < reg.len() && reg[j].0 != channel_id implies #[trigger] self.channels@[j]
                == reg[j] by {
                assert(j != i);
            }
            assert(output@ =~= Seq::<u8>::empty() + output@);
        }
        match result {
            Ok(()) => Ok(bytes_mut_from_slice(output.as_slice())),
            Err(e) => Err(SessionError::Pdu(e)),
        }
    }

    /// Outputs of a slow-path frame. A response becomes one response
    /// frame; a user-initiated disconnection or data on a channel never
    /// joined ends the session with one `Terminate`, not an error; any other
    /// failure is returned.
    pub fn process_x224_frame(&mut self, frame: SlowPathFrame) -> (r: Result<Vec<ActiveStageOutput>, SessionError>)
        ensures
            final(self).registry().len() == old(self).registry().len(),
            forall|j: int|
                0 <= j < old(self).registry().len() ==> #[trigger] final(self).registry()[j].0
                    == old(self).registry()[j].0,
            final(self).spec_initiator_id() == old(self).spec_initiator_id(),
            final(self).spec_global_channel_id() == old(self).spec_global_channel_id(),
            match frame {
                SlowPathFrame::Handled(result) => match (r, slow_path_outputs(result)) {
                    (Ok(v), Ok(s)) => v@ == s,
                    (Err(a), Err(b)) => a == b,
                    _ => false,
                },
                SlowPathFrame::ChannelData { channel_id, payload } => {
                    &&& not_joined(old(self).registry(), channel_id) ==> (r matches Ok(v) && v@ == seq![
                        ActiveStageOutput::Terminate,
                    ])
                    &&& forall|i: int|
                        is_first_with_id(old(self).registry(), channel_id, i) ==> match #[trigger] old(
                            self,
                        ).registry()[i].1.spec_response(payload@) {
                            Ok(bytes) => (r matches Ok(v) && v@.len() == 1 && (v@[0] matches ActiveStageOutput::ResponseFrame(
                                out,
                            ) && bytes_mut_contents(out) == bytes)),
                            Err(e) => r matches Err(SessionError::Pdu(pe)) && pe == e,
                        }
                },
            },
    {
        let result = match frame {
            SlowPathFrame::ChannelData { channel_id, payload } => self.route_channel_data(
                channel_id,
                payload.as_slice(),
            ),
            SlowPathFrame::Handled(result) => result,
        };
        match result {
            Ok(output) => Ok(vec![ActiveStageOutput::ResponseFrame(output)]),
            Err(SessionError::UnexpectedDisconnection) => Ok(vec![ActiveStageOutput::Terminate]),
            Err(SessionError::UnexpectedChannel(_)) => Ok(vec![ActiveStageOutput::Terminate]),
            Err(e) => Err(e),
        }
    }

    /// Outputs of a fast-path frame: the response bytes, when there are
    /// any, then the changed region, when there is one, in that order so
    /// that a caller draining them flushes its writes before repainting.
    pub fn process_fast_path_frame(&mut self, update: Result<FastPathUpdate, SessionError>) -> (r: Result<
        Vec<ActiveStageOutput>,
        SessionError,
    >)
        ensures
            *final(self) == *old(self),
            match update {
                Ok(u) => r matches Ok(v) && v@ == fast_path_outputs(u),
                Err(e) => r matches Err(re) && re == e,
            },
    {
        let FastPathUpdate { response, update_region } = update?;
        let ghost u = FastPathUpdate { response, update_region };
        let mut stage_outputs: Vec<ActiveStageOutput> = Vec::new();
        if !bytes_mut_is_empty(&response) {
            stage_outputs.push(ActiveStageOutput::ResponseFrame(response));
        }
        if let Some(update_region) = update_region {
            stage_outputs.push(ActiveStageOutput::GraphicsUpdate(update_region));
        }
        assert(stage_outputs@ =~= fast_path_outputs(u));
        Ok(stage_outputs)
    }

    /// Processes one frame, as its header was classified: `Err` when the
    /// header could not be read. A fast-path header that declared a null
    /// length is a known peer quirk: the frame is dropped with no output
    /// and no error. Any other header failure is returned, and ends the
    /// session. Once a `Terminate` comes out, the caller must stop.
    pub fn process(&mut self, frame: Result<Frame, SessionError>) -> (r: Result<Vec<ActiveStageOutput>, SessionError>)
        ensures
            final(self).registry().len() == old(self).registry().len(),
            forall|j: int|
                0 <= j < old(self).registry().len() ==> #[trigger] final(self).registry()[j].0
                    == old(self).registry()[j].0,
            final(self).spec_initiator_id() == old(self).spec_initiator_id(),
            final(self).spec_global_channel_id() == old(self).spec_global_channel_id(),
            match frame {
                Err(e) => match (r, header_failure_outputs(e)) {
                    (Ok(v), Ok(s)) => v@ == s,
                    (Err(a), Err(b)) => a == b,
                    _ => false,
                },
                Ok(Frame::FastPath(Ok(u))) => r matches Ok(v) && v@ == fast_path_outputs(u),
                Ok(Frame::FastPath(Err(e))) => r matches Err(re) && re == e,
                Ok(Frame::SlowPath(SlowPathFrame::Handled(result))) => match (r, slow_path_outputs(result)) {
                    (Ok(v), Ok(s)) => v@ == s,
                    (Err(a), Err(b)) => a == b,
                    _ => false,
                },
                Ok(Frame::SlowPath(SlowPathFrame::ChannelData { channel_id, payload })) => {
                    &&& not_joined(old(self).registry(), channel_id) ==> (r matches Ok(v) && v@ == seq![
                        ActiveStageOutput::Terminate,
                    ])
                    &&& forall|i: int|
                        is_first_with_id(old(self).registry(), channel_id, i) ==> match #[trigger] old(
                            self,
                        ).registry()[i].1.spec_response(payload@) {
                            Ok(bytes) => (r matches Ok(v) && v@.len() == 1 && (v@[0] matches ActiveStageOutput::ResponseFrame(
                                out,
                            ) && bytes_mut_contents(out) == bytes)),
                            Err(e) => r matches Err(SessionError::Pdu(pe)) && pe == e,
                        }
                },
            },
    {
        match frame {
            Ok(Frame::SlowPath(slow)) => self.process_x224_frame(slow),
            Ok(Frame::FastPath(update)) => self.process_fast_path_frame(update),
            Err(SessionError::NullLengthFastPath) => Ok(Vec::new()),
            Err(e) => Err(e),
        }
    }

    /// Addresses a message for the global channel, as sent by this
    /// session's user; typically an input event.
    pub fn send_static(&self, message: Vec<u8>) -> (r: StaticMessage)
        ensures
            r.initiator_id == self.spec_initiator_id(),
            r.channel_id == self.spec_global_channel_id(),
            r.payload@ == message@,
    {
        StaticMessage { initiator_id: self.initiator_id, channel_id: self.global_channel_id, payload: message }
    }
}

} // verus!
