//! Platform dependent WebRTC implementations: what they decide, and how the values that they report
//! map to those of the library.

use vstd::prelude::*;
use vstd::std_specs::convert::FromSpecImpl;

use crate::types::PeerConnectionState;
use crate::types::SDPType;

pub mod native;
pub mod wasm;

verus! {

/// Platform marker.
pub trait Platform {

}

/// The type of a description, as a platform reports it.
#[derive(Debug, Clone, Copy, PartialEq, Eq, Structural)]
pub enum ReportedSdpType {
    Offer,
    Pranswer,
    Answer,
    Rollback,
    /// No type, or one that is not known.
    Unspecified,
}

/// What the type of a description that a platform reports is taken for.
pub open spec fn sdp_type_of(value: ReportedSdpType) -> SDPType {
    match value {
        ReportedSdpType::Answer => SDPType::Answer,
        ReportedSdpType::Offer => SDPType::Offer,
        ReportedSdpType::Pranswer => SDPType::Pranswer,
        ReportedSdpType::Rollback => SDPType::Rollback,
        ReportedSdpType::Unspecified => SDPType::Answer,
    }
}

impl From<ReportedSdpType> for SDPType {
    fn from(value: ReportedSdpType) -> (sdp_type: Self) {
        match value {
            ReportedSdpType::Answer => SDPType::Answer,
            ReportedSdpType::Offer => SDPType::Offer,
            ReportedSdpType::Pranswer => SDPType::Pranswer,
            ReportedSdpType::Rollback => SDPType::Rollback,
            ReportedSdpType::Unspecified => SDPType::Answer,
        }
    }
}

impl FromSpecImpl<ReportedSdpType> for SDPType {
    open spec fn obeys_from_spec() -> bool {
        true
    }

    open spec fn from_spec(value: ReportedSdpType) -> Self {
        sdp_type_of(value)
    }
}

/// The state of a peer connection, as a platform reports it.
#[derive(Debug, Clone, Copy, PartialEq, Eq, Structural)]
pub enum ReportedConnectionState {
    New,
    Connecting,
    Connected,
    Disconnected,
    Failed,
    Closed,
    /// No state, or one that is not known.
    Unspecified,
}

/// What the state of a peer connection that a platform reports is taken for.
pub open spec fn connection_state_of(value: ReportedConnectionState) -> PeerConnectionState {
    match value {
        ReportedConnectionState::Closed => PeerConnectionState::Closed,
        ReportedConnectionState::Connected => PeerConnectionState::Connected,
        ReportedConnectionState::Connecting => PeerConnectionState::Connecting,
        ReportedConnectionState::Disconnected => PeerConnectionState::Disconnected,
        ReportedConnectionState::Failed => PeerConnectionState::Failed,
        ReportedConnectionState::New => PeerConnectionState::New,
        ReportedConnectionState::Unspecified => PeerConnectionState::New,
    }
}

impl From<ReportedConnectionState> for PeerConnectionState {
    fn from(value: ReportedConnectionState) -> (state: Self) {
        match value {
            ReportedConnectionState::Closed => PeerConnectionState::Closed,
            ReportedConnectionState::Connected => PeerConnectionState::Connected,
            ReportedConnectionState::Connecting => PeerConnectionState::Connecting,
            ReportedConnectionState::Disconnected => PeerConnectionState::Disconnected,
            ReportedConnectionState::Failed => PeerConnectionState::Failed,
            ReportedConnectionState::New => PeerConnectionState::New,
            ReportedConnectionState::Unspecified => PeerConnectionState::New,
        }
    }
}

impl FromSpecImpl<ReportedConnectionState> for PeerConnectionState {
    open spec fn obeys_from_spec() -> bool {
        true
    }

    open spec fn from_spec(value: ReportedConnectionState) -> Self {
        connection_state_of(value)
    }
}

} // verus!
