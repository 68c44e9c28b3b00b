//! The browser as a platform: how it builds a connection, and what it makes of the events of a
//! connection.

use vstd::prelude::*;
use vstd::string::StringExecFns;

use crate::builder::PeerConnectionBuilder;
use crate::connection::build_plan;
use crate::connection::BuildPlan;
use crate::connection::CandidateCollector;
use crate::connection::ChannelAction;
use crate::connection::ChannelEvent;
use crate::platform::Platform;
use crate::types::DataChannelOptions;
use crate::types::ICECandidate;
use crate::types::PeerConfiguration;

verus! {

/// WASM platform marker.
#[derive(Debug)]
pub struct Wasm {}

impl Platform for Wasm {

}

/// WASM WebRTC error type.
#[derive(Debug)]
pub enum Error {
    /// Local unbounded mpsc channel receive error.
    MpscRecvError,
    /// Error originating from the browser.
    WebRtcError(String),
    /// Data channel closed error.
    DataChannelClosed,
}

impl Error {
    /// What the error says.
    pub fn message(&self) -> (message: String)
        ensures
            message@ == match *self {
                Error::MpscRecvError => "data channel senders dropped!"@,
                Error::WebRtcError(reason) => "webrtc error: "@ + reason@,
                Error::DataChannelClosed => "data channel closed!"@,
            },
    {
        match self {
            Error::MpscRecvError => "data channel senders dropped!".to_owned(),
            Error::WebRtcError(reason) => {
                let mut message = "webrtc error: ".to_owned();
                message.append(reason.as_str());
                message
            },
            Error::DataChannelClosed => "data channel closed!".to_owned(),
        }
    }
}

/// What came out of a queue, which is an error where all its senders are gone.
pub fn received<T>(message: Option<T>) -> (outcome: Result<T, Error>)
    ensures
        outcome == match message {
            Some(message) => Ok::<T, Error>(message),
            None => Err::<T, Error>(Error::MpscRecvError),
        },
{
    match message {
        Some(message) => Ok(message),
        None => Err(Error::MpscRecvError),
    }
}

/// Take in a message of the candidate gathering: a candidate, or none where the gathering has
/// finished. It is an error where no message will come. Says whether more is to come.
pub fn collect_ice_candidate(
    collector: &mut CandidateCollector,
    message: Option<Option<ICECandidate>>,
) -> (more: Result<bool, Error>)
    ensures
        match message {
            Some(Some(candidate)) => {
                &&& more == Ok::<bool, Error>(true)
                &&& final(collector)@ == old(collector)@.push(candidate)
            },
            Some(None) => {
                &&& more == Ok::<bool, Error>(false)
                &&& final(collector)@ == old(collector)@
            },
            None => {
                &&& more == Err::<bool, Error>(Error::MpscRecvError)
                &&& final(collector)@ == old(collector)@
            },
        },
{
    match received(message) {
        Ok(message) => Ok(collector.receive(message)),
        Err(error) => Err(error),
    }
}

/// The id of a channel. A channel that was given none has the id zero.
pub fn channel_id(id: Option<u16>) -> (channel_id: u16)
    ensures
        channel_id == match id {
            Some(id) => id,
            None => 0u16,
        },
{
    match id {
        Some(id) => id,
        None => 0,
    }
}

/// The options of a data channel, as the browser takes them. What is none is left out.
#[derive(Debug)]
pub struct DataChannelDict {
    pub ordered: Option<bool>,
    pub max_packet_life_time: Option<u16>,
    pub max_retransmits: Option<u16>,
    pub protocol: Option<String>,
    pub negotiated: Option<bool>,
    pub id: u16,
}

/// The options of the channel at some place among the channels. A channel that was negotiated has
/// the id that was agreed on, any other has its place for an id, in sixteen bits.
pub fn data_channel_dict(index: usize, options: &DataChannelOptions) -> (dict: DataChannelDict)
    ensures
        dict.ordered == options.ordered,
        dict.max_packet_life_time == options.max_packet_life_time,
        dict.max_retransmits == options.max_retransmits,
        dict.protocol == options.protocol,
        match options.negotiated {
            Some(id) => dict.negotiated == Some(true) && dict.id == id,
            None => dict.negotiated is None && dict.id == index % 0x1_0000,
        },
{
    let protocol = match &options.protocol {
        Some(protocol) => Some(protocol.clone()),
        None => None,
    };
    let (negotiated, id) = match options.negotiated {
        Some(id) => (Some(true), id),
        None => (None, (index % 0x1_0000) as u16),
    };
    DataChannelDict {
        ordered: options.ordered,
        max_packet_life_time: options.max_packet_life_time,
        max_retransmits: options.max_retransmits,
        protocol,
        negotiated,
        id,
    }
}

/// What is to be sent on when a candidate was gathered (its text, media id and media line index),
/// or the gathering has finished.
pub fn handle_ice_candidate(candidate: Option<(String, Option<String>, Option<u16>)>) -> (message:
    Option<ICECandidate>)
    ensures
        message == match candidate {
            Some(fields) => Some(
                ICECandidate {
                    candidate: fields.0,
                    sdp_mid: fields.1,
                    sdp_mline_index: fields.2,
                    username_fragment: None,
                },
            ),
            None => None,
        },
{
    match candidate {
        Some((candidate, sdp_mid, sdp_mline_index)) => Some(
            ICECandidate { candidate, sdp_mid, sdp_mline_index, username_fragment: None },
        ),
        None => None,
    }
}

/// What a data channel does about an event. A channel that was closed is no longer ready.
pub fn handle_data_channel(event: ChannelEvent) -> (action: ChannelAction)
    ensures
        match event {
            ChannelEvent::Open => action == ChannelAction::SetReady(true),
            ChannelEvent::Close => action == ChannelAction::SetReady(false),
            ChannelEvent::Message(Some(data)) => action == ChannelAction::Deliver(data),
            _ => action == ChannelAction::Ignore,
        },
{
    match event {
        ChannelEvent::Close => ChannelAction::SetReady(false),
        ChannelEvent::Open => ChannelAction::SetReady(true),
        ChannelEvent::Message(Some(data)) => ChannelAction::Deliver(data),
        // only array buffers are supported
        ChannelEvent::Message(None) => ChannelAction::Ignore,
        ChannelEvent::Error => ChannelAction::Ignore,
    }
}

impl PeerConnectionBuilder<Wasm> {
    /// How the peer connection is built.
    pub fn build(&self) -> (plan: BuildPlan<'_, PeerConfiguration, DataChannelOptions>)
        ensures
            crate::connection::plans(
                plan,
                self@.config,
                self@.remote_offer,
                self@.channel_options,
            ),
    {
        build_plan(self.config(), self.remote_offer(), self.channel_options())
    }
}

} // verus!
