//! Plain WebRTC values: candidates, servers, policies, descriptions and channel options.
//!
//! Every type here is an ordinary value that can be compared, copied and handed across a platform
//! boundary. Nothing in this module depends on a particular WebRTC implementation.

use vstd::prelude::*;

verus! {

/// ICECandidate is used to exchange ICE candidates.
#[derive(Debug, Clone, Hash, PartialEq, Eq)]
pub struct ICECandidate {
    pub candidate: String,
    pub sdp_mid: Option<String>,
    pub sdp_mline_index: Option<u16>,
    pub username_fragment: Option<String>,
}

impl Default for ICECandidate {
    fn default() -> (candidate: Self)
        ensures
            candidate.candidate@ == Seq::<char>::empty(),
            candidate.sdp_mid is None,
            candidate.sdp_mline_index is None,
            candidate.username_fragment is None,
    {
        ICECandidate {
            candidate: String::new(),
            sdp_mid: None,
            sdp_mline_index: None,
            username_fragment: None,
        }
    }
}

/// ICECredentialType indicates the type of credentials used to connect to an ICE server.
#[derive(Debug, Clone, Copy, Hash, PartialEq, Eq, Structural)]
pub enum ICECredentialType {
    /// Username and password based credentials, as described in
    /// <https://tools.ietf.org/html/rfc5389>.
    Password,
    /// Token based credentials, as described in <https://tools.ietf.org/html/rfc7635>.
    Oauth,
}

impl Default for ICECredentialType {
    fn default() -> (credential_type: Self)
        ensures
            credential_type == ICECredentialType::Password,
    {
        ICECredentialType::Password
    }
}

/// ICEServer describes a single STUN or TURN server that can be used to establish a connection
/// with a peer.
#[derive(Debug, Clone, Hash, PartialEq, Eq)]
pub struct ICEServer {
    pub urls: Vec<String>,
    pub username: String,
    pub credential: String,
    pub credential_type: ICECredentialType,
}

impl Default for ICEServer {
    fn default() -> (server: Self)
        ensures
            server.urls@ == Seq::<String>::empty(),
            server.username@ == Seq::<char>::empty(),
            server.credential@ == Seq::<char>::empty(),
            server.credential_type == ICECredentialType::Password,
    {
        ICEServer {
            urls: Vec::new(),
            username: String::new(),
            credential: String::new(),
            credential_type: ICECredentialType::Password,
        }
    }
}

/// ICETransportPolicy defines which candidates are used for connectivity checks.
#[derive(Debug, Clone, Copy, Hash, PartialEq, Eq, Structural)]
pub enum ICETransportPolicy {
    /// Any type of candidate is used.
    All,
    /// Only media relay candidates, such as those passing through a TURN server, are used.
    Relay,
}

impl Default for ICETransportPolicy {
    fn default() -> (policy: Self)
        ensures
            policy == ICETransportPolicy::All,
    {
        ICETransportPolicy::All
    }
}

/// BundlePolicy affects which media tracks are negotiated if the remote endpoint is not
/// bundle-aware, and what ICE candidates are gathered. If the remote endpoint is bundle-aware, all
/// media tracks and data channels are bundled onto the same transport.
#[derive(Debug, Clone, Copy, Hash, PartialEq, Eq, Structural)]
pub enum BundlePolicy {
    /// Gather ICE candidates for each media type in use. If the remote endpoint is not
    /// bundle-aware, negotiate only one audio and video track on separate transports.
    Balanced,
    /// Gather ICE candidates for each track. If the remote endpoint is not bundle-aware, negotiate
    /// all media tracks on separate transports.
    MaxCompat,
    /// Gather ICE candidates for only one track. If the remote endpoint is not bundle-aware,
    /// negotiate only one media track.
    MaxBundle,
}

impl Default for BundlePolicy {
    fn default() -> (policy: Self)
        ensures
            policy == BundlePolicy::Balanced,
    {
        BundlePolicy::Balanced
    }
}

/// RTCPMuxPolicy affects what ICE candidates are gathered to support non-multiplexed RTCP.
#[derive(Debug, Clone, Copy, Hash, PartialEq, Eq, Structural)]
pub enum RTCPMuxPolicy {
    /// Gather ICE candidates for both RTP and RTCP. If the remote endpoint is capable of
    /// multiplexing RTCP, multiplex RTCP on the RTP candidates; otherwise use both separately.
    Negotiate,
    /// Gather ICE candidates only for RTP and multiplex RTCP on them. If the remote endpoint is
    /// not capable of rtcp-mux, session negotiation will fail.
    Require,
}

impl Default for RTCPMuxPolicy {
    fn default() -> (policy: Self)
        ensures
            policy == RTCPMuxPolicy::Require,
    {
        RTCPMuxPolicy::Require
    }
}

/// A PeerConfiguration defines how peer-to-peer communication is established or re-established.
/// Configurations may be set up once and reused across multiple connections.
#[derive(Debug, Clone, Hash, PartialEq, Eq)]
pub struct PeerConfiguration {
    /// Servers available to be used by ICE, such as STUN and TURN servers.
    pub ice_servers: Vec<ICEServer>,
    /// Which candidates may be used.
    pub ice_transport_policy: ICETransportPolicy,
    /// Which media-bundling policy to use when gathering ICE candidates.
    pub bundle_policy: BundlePolicy,
    /// Which rtcp-mux policy to use when gathering ICE candidates.
    pub rtcp_mux_policy: RTCPMuxPolicy,
    /// The target peer identity. A connection to a remote peer is not established unless it can be
    /// successfully authenticated with the provided name.
    pub peer_identity: String,
    /// The size of the prefetched ICE pool.
    pub ice_candidate_pool_size: u8,
}

impl PeerConfiguration {
    /// The default policies, no peer identity, an empty candidate pool and these servers.
    pub open spec fn is_default_with(&self, ice_servers: Seq<ICEServer>) -> bool {
        &&& self.ice_servers@ == ice_servers
        &&& self.ice_transport_policy == ICETransportPolicy::All
        &&& self.bundle_policy == BundlePolicy::Balanced
        &&& self.rtcp_mux_policy == RTCPMuxPolicy::Require
        &&& self.peer_identity@ == Seq::<char>::empty()
        &&& self.ice_candidate_pool_size == 0
    }
}

impl Default for PeerConfiguration {
    fn default() -> (config: Self)
        ensures
            config.is_default_with(Seq::empty()),
    {
        PeerConfiguration {
            ice_servers: Vec::new(),
            ice_transport_policy: ICETransportPolicy::All,
            bundle_policy: BundlePolicy::Balanced,
            rtcp_mux_policy: RTCPMuxPolicy::Require,
            peer_identity: String::new(),
            ice_candidate_pool_size: 0,
        }
    }
}

/// SDPType describes the type of a SessionDescription.
#[derive(Debug, Clone, Copy, Hash, PartialEq, Eq, Structural)]
pub enum SDPType {
    /// The description must be treated as an SDP offer.
    Offer,
    /// The description must be treated as an SDP answer, but not a final answer.
    Pranswer,
    /// The description must be treated as an SDP final answer, and the offer-answer exchange must
    /// be considered complete.
    Answer,
    /// The description must be treated as cancelling the current SDP negotiation.
    Rollback,
}

/// SessionDescription is used to expose local and remote session descriptions.
#[derive(Debug, Clone, Hash, PartialEq, Eq)]
pub struct SessionDescription {
    pub sdp_type: SDPType,
    pub sdp: String,
}

/// DataChannelOptions can be used to configure properties of the underlying channel such as data
/// reliability.
#[derive(Debug, Clone, Hash, PartialEq, Eq)]
pub struct DataChannelOptions {
    /// Whether data is guaranteed to be delivered in order.
    pub ordered: Option<bool>,
    /// The time (in milliseconds) during which the channel will transmit or retransmit data if not
    /// acknowledged.
    pub max_packet_life_time: Option<u16>,
    /// The number of times a channel will retransmit data if not successfully delivered.
    pub max_retransmits: Option<u16>,
    /// The subprotocol name used for this channel.
    pub protocol: Option<String>,
    /// None announces the channel in-band. Some(id) leaves it to the application to create a
    /// channel with the same id at the other peer.
    pub negotiated: Option<u16>,
}

impl Default for DataChannelOptions {
    fn default() -> (options: Self)
        ensures
            options == (DataChannelOptions {
                ordered: None,
                max_packet_life_time: None,
                max_retransmits: None,
                protocol: None,
                negotiated: None,
            }),
    {
        DataChannelOptions {
            ordered: None,
            max_packet_life_time: None,
            max_retransmits: None,
            protocol: None,
            negotiated: None,
        }
    }
}

/// DataChannelState indicates the state of a data channel.
#[derive(Debug, Clone, Copy, Hash, PartialEq, Eq, Structural)]
pub enum DataChannelState {
    /// The data channel is being established. This is the initial state.
    Connecting,
    /// The underlying data transport is established and communication is possible.
    Open,
    /// The procedure to close down the underlying data transport has started.
    Closing,
    /// The underlying data transport has been closed or could not be established.
    Closed,
}

/// PeerConnectionState indicates the state of the peer connection.
#[derive(Debug, Clone, Copy, Hash, PartialEq, Eq, Structural)]
pub enum PeerConnectionState {
    /// No transport has started connecting yet, or all of them are closed, or there are none.
    New,
    /// Some transport is connecting or checking and none has failed.
    Connecting,
    /// Every transport is connected, completed or closed, and at least one is not closed.
    Connected,
    /// Some transport is disconnected and none has failed, is connecting or is checking.
    Disconnected,
    /// Some transport has failed.
    Failed,
    /// The peer connection is closed.
    Closed,
}

} // verus!
