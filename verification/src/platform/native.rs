//! The native platform, on the `webrtc` crate: how it builds a connection, the descriptions and
//! candidates it exchanges, and what it makes of the events of a connection.

use vstd::prelude::*;
use vstd::std_specs::convert::FromSpecImpl;
use webrtc::ice_transport::ice_candidate::RTCIceCandidate;
use webrtc::ice_transport::ice_candidate_type::RTCIceCandidateType;
use webrtc::ice_transport::ice_protocol::RTCIceProtocol;
use webrtc::peer_connection::sdp::sdp_type::RTCSdpType;
use webrtc::peer_connection::sdp::session_description::RTCSessionDescription;
use webrtc::Error as WebrtcFailure;

use crate::builder::PeerConnectionBuilder;
use crate::connection::build_plan;
use crate::connection::BuildPlan;
use crate::connection::CandidateCollector;
use crate::connection::ChannelAction;
use crate::connection::ChannelEvent;
use crate::platform::Platform;
use crate::platform::ReportedSdpType;
use crate::types::DataChannelOptions;
use crate::types::ICECandidate;
use crate::types::PeerConfiguration;
use crate::types::SDPType;
use crate::types::SessionDescription;

verus! {

/// Native platform marker.
#[derive(Debug)]
pub struct Native {}

impl Platform for Native {

}

/// What can go wrong in `webrtc`.
#[verifier::external_type_specification]
#[verifier::external_body]
pub struct ExWebrtcError(WebrtcFailure);

/// Why `tokio` had no message at once.
#[verifier::external_type_specification]
#[verifier::external_body]
pub struct ExTryRecvError(tokio::sync::mpsc::error::TryRecvError);

/// Why `tokio` had no value to watch.
#[verifier::external_type_specification]
#[verifier::external_body]
pub struct ExWatchRecvError(tokio::sync::watch::error::RecvError);

/// A description, as `webrtc` takes and gives it.
#[verifier::external_type_specification]
#[verifier::external_body]
pub struct ExSessionDescription(RTCSessionDescription);

/// Native WebRTC error type.
#[derive(Debug)]
pub enum NativeError {
    /// No message was there to receive.
    MpscTryRecvError(tokio::sync::mpsc::error::TryRecvError),
    /// The value that was watched is gone.
    WatchRecvError(tokio::sync::watch::error::RecvError),
    /// Error originating from `webrtc`.
    WebRtcError(webrtc::Error),
}

impl From<tokio::sync::mpsc::error::TryRecvError> for NativeError {
    fn from(error: tokio::sync::mpsc::error::TryRecvError) -> (converted: Self) {
        NativeError::MpscTryRecvError(error)
    }
}

impl FromSpecImpl<tokio::sync::mpsc::error::TryRecvError> for NativeError {
    open spec fn obeys_from_spec() -> bool {
        true
    }

    open spec fn from_spec(error: tokio::sync::mpsc::error::TryRecvError) -> Self {
        NativeError::MpscTryRecvError(error)
    }
}

impl From<tokio::sync::watch::error::RecvError> for NativeError {
    fn from(error: tokio::sync::watch::error::RecvError) -> (converted: Self) {
        NativeError::WatchRecvError(error)
    }
}

impl FromSpecImpl<tokio::sync::watch::error::RecvError> for NativeError {
    open spec fn obeys_from_spec() -> bool {
        true
    }

    open spec fn from_spec(error: tokio::sync::watch::error::RecvError) -> Self {
        NativeError::WatchRecvError(error)
    }
}

impl From<webrtc::Error> for NativeError {
    fn from(error: webrtc::Error) -> (converted: Self) {
        NativeError::WebRtcError(error)
    }
}

impl FromSpecImpl<webrtc::Error> for NativeError {
    open spec fn obeys_from_spec() -> bool {
        true
    }

    open spec fn from_spec(error: webrtc::Error) -> Self {
        NativeError::WebRtcError(error)
    }
}

/// Whether `RTCSessionDescription::unmarshal` can parse a text as a session description.
pub uninterp spec fn is_sdp(text: Seq<char>) -> bool;

/// The text of a description: its field `sdp`.
pub uninterp spec fn description_text(description: RTCSessionDescription) -> Seq<char>;

/// The type of a description: its field `sdp_type`.
pub uninterp spec fn description_type(description: RTCSessionDescription) -> ReportedSdpType;

/// Calls `RTCSessionDescription::answer`: it makes a description of a text that can be parsed, and
/// fails on any other. What it says in its error is left open.
#[verifier::external_body]
fn rtc_answer(sdp: String) -> (description: Result<RTCSessionDescription, webrtc::Error>)
    ensures
        description is Ok <==> is_sdp(sdp@),
        description matches Ok(d) ==> description_text(d) == sdp@ && description_type(d)
            == ReportedSdpType::Answer,
{
    RTCSessionDescription::answer(sdp)
}

/// Calls `RTCSessionDescription::offer`: it makes a description of a text that can be parsed, and
/// fails on any other. What it says in its error is left open.
#[verifier::external_body]
fn rtc_offer(sdp: String) -> (description: Result<RTCSessionDescription, webrtc::Error>)
    ensures
        description is Ok <==> is_sdp(sdp@),
        description matches Ok(d) ==> description_text(d) == sdp@ && description_type(d)
            == ReportedSdpType::Offer,
{
    RTCSessionDescription::offer(sdp)
}

/// Calls `RTCSessionDescription::pranswer`: it makes a description of a text that can be parsed,
/// and fails on any other. What it says in its error is left open.
#[verifier::external_body]
fn rtc_pranswer(sdp: String) -> (description: Result<RTCSessionDescription, webrtc::Error>)
    ensures
        description is Ok <==> is_sdp(sdp@),
        description matches Ok(d) ==> description_text(d) == sdp@ && description_type(d)
            == ReportedSdpType::Pranswer,
{
    RTCSessionDescription::pranswer(sdp)
}

/// Calls `RTCSessionDescription::default`, and sets the text and the type of the description that
/// it makes. The text is not parsed.
#[verifier::external_body]
fn rtc_rollback(sdp: String) -> (description: RTCSessionDescription)
    ensures
        description_text(description) == sdp@,
        description_type(description) == ReportedSdpType::Rollback,
{
    let mut description = RTCSessionDescription::default();
    description.sdp = sdp;
    description.sdp_type = RTCSdpType::Rollback;
    description
}

/// Takes the fields `sdp` and `sdp_type` out of a `RTCSessionDescription`.
#[verifier::external_body]
fn rtc_description_parts(description: RTCSessionDescription) -> (parts: (String, ReportedSdpType))
    ensures
        parts.0@ == description_text(description),
        parts.1 == description_type(description),
{
    let sdp_type = match description.sdp_type {
        RTCSdpType::Offer => ReportedSdpType::Offer,
        RTCSdpType::Pranswer => ReportedSdpType::Pranswer,
        RTCSdpType::Answer => ReportedSdpType::Answer,
        RTCSdpType::Rollback => ReportedSdpType::Rollback,
        RTCSdpType::Unspecified => ReportedSdpType::Unspecified,
    };
    (description.sdp, sdp_type)
}

/// The type that a description is given.
pub open spec fn reported(sdp_type: SDPType) -> ReportedSdpType {
    match sdp_type {
        SDPType::Answer => ReportedSdpType::Answer,
        SDPType::Offer => ReportedSdpType::Offer,
        SDPType::Pranswer => ReportedSdpType::Pranswer,
        SDPType::Rollback => ReportedSdpType::Rollback,
    }
}

/// A description for `webrtc`. Unless it is to roll back, its text must be one that can be parsed.
pub fn rtc_description(value: SessionDescription) -> (description: Result<
    RTCSessionDescription,
    webrtc::Error,
>)
    ensures
        description is Ok <==> value.sdp_type == SDPType::Rollback || is_sdp(value.sdp@),
        description matches Ok(d) ==> description_text(d) == value.sdp@ && description_type(d)
            == reported(value.sdp_type),
{
    match value.sdp_type {
        SDPType::Answer => rtc_answer(value.sdp),
        SDPType::Offer => rtc_offer(value.sdp),
        SDPType::Pranswer => rtc_pranswer(value.sdp),
        SDPType::Rollback => Ok(rtc_rollback(value.sdp)),
    }
}

/// A description that `webrtc` gave.
pub fn session_description(description: RTCSessionDescription) -> (value: SessionDescription)
    ensures
        value.sdp@ == description_text(description),
        value.sdp_type == crate::platform::sdp_type_of(description_type(description)),
{
    let (sdp, sdp_type) = rtc_description_parts(description);
    SessionDescription { sdp, sdp_type: SDPType::from(sdp_type) }
}

/// A description that was made for `webrtc` comes back with the text and the type that it had.
pub proof fn descriptions_come_back(
    value: SessionDescription,
    description: RTCSessionDescription,
    back: SessionDescription,
)
    requires
        description_text(description) == value.sdp@,
        description_type(description) == reported(value.sdp_type),
        back.sdp@ == description_text(description),
        back.sdp_type == crate::platform::sdp_type_of(description_type(description)),
    ensures
        back.sdp@ == value.sdp@,
        back.sdp_type == value.sdp_type,
{
}

/// A candidate that `webrtc` gathered. The protocol and the type are given by the names that
/// `webrtc` has for them.
#[derive(Debug)]
pub struct GatheredCandidate {
    pub foundation: String,
    pub priority: u32,
    pub address: String,
    pub protocol: String,
    pub port: u16,
    pub typ: String,
    pub component: u16,
    pub related_address: String,
    pub related_port: u16,
}

impl GatheredCandidate {
    /// Whether the candidate has a priority, or one can be worked out from its component.
    pub open spec fn has_priority(&self) -> bool {
        self.priority != 0 || self.component <= 256
    }

    /// Whether the candidate can be put into text, as far as its address, protocol and type go.
    pub open spec fn is_readable(&self) -> bool {
        is_candidate(self.address@, self.protocol@, self.typ@)
    }
}

/// Whether `RTCIceCandidate::to_json` accepts the address, the protocol and the type of a candidate.
pub uninterp spec fn is_candidate(
    address: Seq<char>,
    protocol: Seq<char>,
    typ: Seq<char>,
) -> bool;

/// The text that `RTCIceCandidate::to_json` puts a candidate into that it accepts.
pub uninterp spec fn candidate_text(
    foundation: Seq<char>,
    priority: u32,
    address: Seq<char>,
    protocol: Seq<char>,
    port: u16,
    typ: Seq<char>,
    component: u16,
    related_address: Seq<char>,
    related_port: u16,
) -> Seq<char>;

/// Calls `RTCIceCandidate::to_json`. Whether it succeeds depends on the address, the protocol and
/// the type alone. Its result depends on the fields given here alone, and has an empty media id, the
/// media line index zero and no user name fragment. Where it accepts a candidate that has no
/// priority it works one out from the component, which may not be larger than 256 then. What it says
/// in its error is left open.
#[verifier::external_body]
fn rtc_candidate_to_json(candidate: GatheredCandidate) -> (json: Result<
    (String, Option<String>, Option<u16>, Option<String>),
    webrtc::Error,
>)
    requires
        candidate.has_priority() || !candidate.is_readable(),
    ensures
        json is Ok <==> is_candidate(candidate.address@, candidate.protocol@, candidate.typ@),
        json is Ok ==> {
            &&& json->Ok_0.0@ == candidate_text(
                candidate.foundation@,
                candidate.priority,
                candidate.address@,
                candidate.protocol@,
                candidate.port,
                candidate.typ@,
                candidate.component,
                candidate.related_address@,
                candidate.related_port,
            )
            &&& json->Ok_0.1 is Some
            &&& json->Ok_0.1->0@ == Seq::<char>::empty()
            &&& json->Ok_0.2 == Some(0u16)
            &&& json->Ok_0.3 is None
        },
{
    let rtc = RTCIceCandidate {
        foundation: candidate.foundation,
        priority: candidate.priority,
        address: candidate.address,
        protocol: RTCIceProtocol::from(candidate.protocol.as_str()),
        port: candidate.port,
        typ: RTCIceCandidateType::from(candidate.typ.as_str()),
        component: candidate.component,
        related_address: candidate.related_address,
        related_port: candidate.related_port,
        ..Default::default()
    };
    let init = rtc.to_json()?;
    Ok((init.candidate, init.sdp_mid, init.sdp_mline_index, init.username_fragment))
}

/// The text that a candidate is put into that can be.
pub open spec fn gathered_text(candidate: GatheredCandidate) -> Seq<char> {
    candidate_text(
        candidate.foundation@,
        candidate.priority,
        candidate.address@,
        candidate.protocol@,
        candidate.port,
        candidate.typ@,
        candidate.component,
        candidate.related_address@,
        candidate.related_port,
    )
}

/// Whether a candidate is for the first media line, which has no name, and has no user name
/// fragment.
pub open spec fn is_plain_candidate(candidate: ICECandidate) -> bool {
    &&& candidate.sdp_mid is Some
    &&& candidate.sdp_mid->0@ == Seq::<char>::empty()
    &&& candidate.sdp_mline_index == Some(0u16)
    &&& candidate.username_fragment is None
}

/// What is to be sent on after a candidate was put into text, or could not be: a candidate that
/// could not be put into text is passed over, and the end of the gathering is sent on as none.
pub fn candidate_message(candidate: Option<Result<ICECandidate, webrtc::Error>>) -> (message: Option<
    Option<ICECandidate>,
>)
    ensures
        message == match candidate {
            Some(Ok(candidate)) => Some(Some(candidate)),
            Some(Err(_)) => None,
            None => Some(None),
        },
{
    match candidate {
        Some(Ok(candidate)) => Some(Some(candidate)),
        Some(Err(_error)) => None,
        None => Some(None),
    }
}

/// Whether this is what is to be sent on when a candidate was gathered, or the gathering has
/// finished.
pub open spec fn is_message_of(
    candidate: Option<GatheredCandidate>,
    message: Option<Option<ICECandidate>>,
) -> bool {
    match candidate {
        None => message == Some(None::<ICECandidate>),
        Some(candidate) => {
            if candidate.is_readable() {
                &&& message is Some
                &&& message->0 is Some
                &&& message->0->0.candidate@ == gathered_text(candidate)
                &&& is_plain_candidate(message->0->0)
            } else {
                message is None
            }
        },
    }
}

/// What is to be sent on when a candidate was gathered, or the gathering has finished. A candidate
/// that can be put into text has a priority, or one that can be worked out.
pub fn handle_ice_candidate(candidate: Option<GatheredCandidate>) -> (message: Option<
    Option<ICECandidate>,
>)
    requires
        candidate matches Some(candidate) ==> candidate.has_priority() || !candidate.is_readable(),
    ensures
        is_message_of(candidate, message),
        candidate is None ==> message == Some(None::<ICECandidate>),
        candidate matches Some(gathered) ==> (message is Some <==> is_candidate(
            gathered.address@,
            gathered.protocol@,
            gathered.typ@,
        )),
        candidate is Some ==> (message matches Some(sent) ==> sent is Some),
{
    match candidate {
        Some(candidate) => {
            let json = match rtc_candidate_to_json(candidate) {
                Ok((candidate, sdp_mid, sdp_mline_index, username_fragment)) => Ok(
                    ICECandidate { candidate, sdp_mid, sdp_mline_index, username_fragment },
                ),
                Err(error) => Err(error),
            };
            candidate_message(Some(json))
        },
        None => candidate_message(None),
    }
}

/// What is to be sent on, as [`handle_ice_candidate`] has it, or the candidate as it was where it
/// can be put into text but no priority can be worked out for it.
pub fn try_handle_ice_candidate(candidate: Option<GatheredCandidate>) -> (outcome: Result<
    Option<Option<ICECandidate>>,
    GatheredCandidate,
>)
    ensures
        outcome is Err <==> (candidate matches Some(candidate) && candidate.is_readable()
            && !candidate.has_priority()),
        match outcome {
            Ok(message) => is_message_of(candidate, message),
            Err(unchanged) => candidate == Some(unchanged),
        },
{
    match candidate {
        Some(candidate) => {
            if candidate.priority == 0 && candidate.component > 256 {
                // whether it can be put into text does not depend on the priority
                let prioritised = GatheredCandidate {
                    foundation: candidate.foundation.clone(),
                    priority: 1,
                    address: candidate.address.clone(),
                    protocol: candidate.protocol.clone(),
                    port: candidate.port,
                    typ: candidate.typ.clone(),
                    component: candidate.component,
                    related_address: candidate.related_address.clone(),
                    related_port: candidate.related_port,
                };
                if rtc_candidate_to_json(prioritised).is_ok() {
                    return Err(candidate);
                }
            }
            Ok(handle_ice_candidate(Some(candidate)))
        },
        None => Ok(handle_ice_candidate(None)),
    }
}

/// Take in a message of the candidate gathering, or that no more will come: either way, the
/// gathering has finished where there is no candidate. Says whether more is to come.
pub fn collect_ice_candidate(
    collector: &mut CandidateCollector,
    message: Option<Option<ICECandidate>>,
) -> (more: bool)
    ensures
        more == (message matches Some(Some(_))),
        final(collector)@ == match message {
            Some(Some(candidate)) => old(collector)@.push(candidate),
            _ => old(collector)@,
        },
{
    match message {
        Some(message) => collector.receive(message),
        None => false,
    }
}

/// What a data channel does about an event. A channel that was closed is not made unready.
pub fn handle_data_channel(event: ChannelEvent) -> (action: ChannelAction)
    ensures
        match event {
            ChannelEvent::Open => action == ChannelAction::SetReady(true),
            ChannelEvent::Message(Some(data)) => action == ChannelAction::Deliver(data),
            _ => action == ChannelAction::Ignore,
        },
{
    match event {
        ChannelEvent::Close => ChannelAction::Ignore,
        ChannelEvent::Open => ChannelAction::SetReady(true),
        ChannelEvent::Message(Some(data)) => ChannelAction::Deliver(data),
        ChannelEvent::Message(None) => ChannelAction::Ignore,
        ChannelEvent::Error => ChannelAction::Ignore,
    }
}

impl PeerConnectionBuilder<Native> {
    /// How the peer connection is built.
    pub fn build(&self) -> (plan: BuildPlan<'_, PeerConfiguration, DataChannelOptions>)
        ensures
            crate::connection::plans(
                plan,
                self@.config,
                self@.remote_offer,
                self@.channel_options,
            ),
    {
        build_plan(self.config(), self.remote_offer(), self.channel_options())
    }
}

} // verus!
