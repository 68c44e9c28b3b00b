//! Peer connections whose settings are checked when they are built, on the configuration that the
//! `webrtc` crate has, where a policy may be left open.

use core::marker::PhantomData;

use vstd::prelude::*;
use vstd::std_specs::convert::FromSpecImpl;
use vstd::string::StringExecFns;

use crate::connection::build_plan;
use crate::connection::BuildPlan;
use crate::generic::platform::Platform;
use crate::types::BundlePolicy;
use crate::types::ICECredentialType;
use crate::types::ICETransportPolicy;
use crate::types::RTCPMuxPolicy;
use crate::types::SessionDescription;

pub mod platform;

verus! {

/// A certificate, as `webrtc` takes it.
#[verifier::external_type_specification]
#[verifier::external_body]
pub struct ExCertificate(webrtc::peer_connection::certificate::RTCCertificate);

/// DataChannelConfig can be used to configure properties of the underlying channel such as data
/// reliability.
#[derive(Debug, Clone)]
pub struct DataChannelConfig {
    /// ordered indicates if data is allowed to be delivered out of order. The default value of
    /// true, guarantees that data will be delivered in order.
    pub ordered: Option<bool>,
    /// max_packet_life_time limits the time (in milliseconds) during which the channel will
    /// transmit or retransmit data if not acknowledged. This value may be clamped if it exceeds the
    /// maximum value supported.
    pub max_packet_life_time: Option<u16>,
    /// max_retransmits limits the number of times a channel will retransmit data if not
    /// successfully delivered. This value may be clamped if it exceeds the maximum value supported.
    pub max_retransmits: Option<u16>,
    /// protocol describes the subprotocol name used for this channel.
    pub protocol: Option<String>,
    /// negotiated describes if the data channel is created by the local peer or the remote peer.
    /// The default value of None tells the user agent to announce the channel in-band and instruct
    /// the other peer to dispatch a corresponding DataChannel. If set to Some(id), it is up to the
    /// application to negotiate the channel and create an DataChannel with the same id at the other
    /// peer.
    pub negotiated: Option<u16>,
}

impl Default for DataChannelConfig {
    fn default() -> (config: Self)
        ensures
            config == (DataChannelConfig {
                ordered: None,
                max_packet_life_time: None,
                max_retransmits: None,
                protocol: None,
                negotiated: None,
            }),
    {
        DataChannelConfig {
            ordered: None,
            max_packet_life_time: None,
            max_retransmits: None,
            protocol: None,
            negotiated: None,
        }
    }
}

/// A STUN or TURN server.
#[derive(Debug)]
pub struct Server {
    pub urls: Vec<String>,
    pub username: String,
    pub credential: String,
    /// None where it is left open.
    pub credential_type: Option<ICECredentialType>,
}

/// How a peer connection is established. A policy that is none is left open.
#[derive(Debug)]
pub struct Configuration {
    pub ice_servers: Vec<Server>,
    pub ice_transport_policy: Option<ICETransportPolicy>,
    pub bundle_policy: Option<BundlePolicy>,
    pub rtcp_mux_policy: Option<RTCPMuxPolicy>,
    pub peer_identity: String,
    pub certificates: Vec<webrtc::peer_connection::certificate::RTCCertificate>,
    pub ice_candidate_pool_size: u8,
}

/// Whether a configuration is the one that is used where none was set: two public STUN servers,
/// without credentials, and everything else left open.
pub open spec fn is_default_configuration(config: Configuration) -> bool {
    &&& config.ice_servers@.len() == 1
    &&& config.ice_servers@[0].urls@.len() == 2
    &&& config.ice_servers@[0].urls@[0]@ == "stun:stun.l.google.com:19302"@
    &&& config.ice_servers@[0].urls@[1]@ == "stun:stun1.l.google.com:19302"@
    &&& config.ice_servers@[0].username@ == Seq::<char>::empty()
    &&& config.ice_servers@[0].credential@ == Seq::<char>::empty()
    &&& config.ice_servers@[0].credential_type is None
    &&& config.ice_transport_policy is None
    &&& config.bundle_policy is None
    &&& config.rtcp_mux_policy is None
    &&& config.peer_identity@ == Seq::<char>::empty()
    &&& config.certificates@.len() == 0
    &&& config.ice_candidate_pool_size == 0
}

/// The configuration that is used where none was set.
pub fn default_configuration() -> (config: Configuration)
    ensures
        is_default_configuration(config),
{
    let urls = vec![
        "stun:stun.l.google.com:19302".to_owned(),
        "stun:stun1.l.google.com:19302".to_owned(),
    ];
    let server = Server {
        urls,
        username: String::new(),
        credential: String::new(),
        credential_type: None,
    };
    Configuration {
        ice_servers: vec![server],
        ice_transport_policy: None,
        bundle_policy: None,
        rtcp_mux_policy: None,
        peer_identity: String::new(),
        certificates: Vec::new(),
        ice_candidate_pool_size: 0,
    }
}

/// Error type for [`PeerConnectionBuilder`].
#[derive(Debug)]
pub enum PeerConnectionBuilderError<E> {
    /// The settings exclude each other.
    ConflictingBuildOptions,
    /// The platform reports an error.
    WebRTCError(E),
}

impl<E> PeerConnectionBuilderError<E> {
    /// What the error says, given a function that says what an error of the platform says.
    pub fn message(&self, describe: impl Fn(&E) -> String) -> (message: String)
        requires
            self matches PeerConnectionBuilderError::WebRTCError(error) ==> call_requires(
                describe,
                (&error,),
            ),
        ensures
            match *self {
                PeerConnectionBuilderError::ConflictingBuildOptions => message@
                    == "remote offer is mutually exclusive with channel settings!"@,
                PeerConnectionBuilderError::WebRTCError(error) => exists|reason: String|
                    #![trigger call_ensures(describe, (&error,), reason)]
                    call_ensures(describe, (&error,), reason) && message@ == "webrtc error ("@
                        + reason@ + ")"@,
            },
    {
        match self {
            PeerConnectionBuilderError::ConflictingBuildOptions => {
                "remote offer is mutually exclusive with channel settings!".to_owned()
            },
            PeerConnectionBuilderError::WebRTCError(error) => {
                let reason = describe(error);
                let mut message = "webrtc error (".to_owned();
                message.append(reason.as_str());
                message.append(")");
                message
            },
        }
    }
}

impl<E> From<E> for PeerConnectionBuilderError<E> {
    fn from(error: E) -> (converted: Self) {
        PeerConnectionBuilderError::WebRTCError(error)
    }
}

impl<E> FromSpecImpl<E> for PeerConnectionBuilderError<E> {
    open spec fn obeys_from_spec() -> bool {
        true
    }

    open spec fn from_spec(error: E) -> Self {
        PeerConnectionBuilderError::WebRTCError(error)
    }
}

/// What a builder was told.
#[verifier::ext_equal]
pub struct GenericBuilderView {
    pub config: Configuration,
    pub outgoing_buffer: usize,
    pub remote_offer: Option<SessionDescription>,
    pub channel_options: Seq<(String, DataChannelConfig)>,
}

impl GenericBuilderView {
    /// Whether both an offer of a remote peer and channels to create were provided, which exclude
    /// each other.
    pub open spec fn is_conflicting(self) -> bool {
        self.remote_offer is Some && self.channel_options.len() > 0
    }
}

/// Builder for peer connections.
#[derive(Debug)]
#[verifier::reject_recursive_types(P)]
pub struct PeerConnectionBuilder<P: Platform> {
    _platform: PhantomData<P>,
    config: Configuration,
    outgoing_buffer: usize,
    remote_offer: Option<SessionDescription>,
    channel_options: Vec<(String, DataChannelConfig)>,
}

impl<P: Platform> View for PeerConnectionBuilder<P> {
    type V = GenericBuilderView;

    closed spec fn view(&self) -> GenericBuilderView {
        GenericBuilderView {
            config: self.config,
            outgoing_buffer: self.outgoing_buffer,
            remote_offer: self.remote_offer,
            channel_options: self.channel_options@,
        }
    }
}

impl<P: Platform> Default for PeerConnectionBuilder<P> {
    fn default() -> (builder: Self)
        ensures
            is_default_configuration(builder@.config),
            builder@.outgoing_buffer == crate::builder::DEFAULT_OUTGOING_BUFFER,
            builder@.remote_offer is None,
            builder@.channel_options.len() == 0,
    {
        PeerConnectionBuilder {
            _platform: PhantomData,
            config: default_configuration(),
            outgoing_buffer: crate::builder::DEFAULT_OUTGOING_BUFFER,
            remote_offer: None,
            channel_options: Vec::new(),
        }
    }
}

impl<P: Platform> PeerConnectionBuilder<P> {
    /// Create new PeerConnectionBuilder (equivalent to PeerConnectionBuilder::default()).
    pub fn new() -> (builder: Self)
        ensures
            is_default_configuration(builder@.config),
            builder@.outgoing_buffer == crate::builder::DEFAULT_OUTGOING_BUFFER,
            builder@.remote_offer is None,
            builder@.channel_options.len() == 0,
    {
        Self::default()
    }

    /// Specify internal WebRTC peer configuration settings.
    pub fn set_config(&mut self, set: Configuration) -> (builder: &Self)
        ensures
            final(self)@ == (GenericBuilderView { config: set, ..old(self)@ }),
            *builder == *final(self),
    {
        self.config = set;
        self
    }

    /// Specify outgoing data channel buffer size.
    pub fn set_outgoing_buffer(&mut self, set: usize) -> (builder: &Self)
        ensures
            final(self)@ == (GenericBuilderView { outgoing_buffer: set, ..old(self)@ }),
            *builder == *final(self),
    {
        self.outgoing_buffer = set;
        self
    }

    /// Provide an Offer as created by a remote peer.
    ///
    /// This option is mutually exclusive with the `with_channel_` settings.
    pub fn with_remote_offer(&mut self, set: Option<SessionDescription>) -> (builder: &Self)
        ensures
            final(self)@ == (GenericBuilderView { remote_offer: set, ..old(self)@ }),
            *builder == *final(self),
    {
        self.remote_offer = set;
        self
    }

    /// Provide options for initial data channel creation (as an offerer).
    ///
    /// This option is mutually exclusive with `with_remote_offer`.
    pub fn with_channel_options(&mut self, set: Vec<(String, DataChannelConfig)>) -> (builder:
        &Self)
        ensures
            final(self)@ == (GenericBuilderView { channel_options: set@, ..old(self)@ }),
            *builder == *final(self),
    {
        self.channel_options = set;
        self
    }

    /// How many outgoing messages a channel buffers.
    pub fn outgoing_buffer(&self) -> (size: usize)
        ensures
            size == self@.outgoing_buffer,
    {
        self.outgoing_buffer
    }

    /// How the peer connection is built, or none where the settings exclude each other.
    fn plan(&self) -> (plan: Option<BuildPlan<'_, Configuration, DataChannelConfig>>)
        ensures
            plan is None <==> self@.is_conflicting(),
            plan matches Some(plan) ==> crate::connection::plans(
                plan,
                self@.config,
                self@.remote_offer,
                self@.channel_options,
            ),
    {
        // validate builder
        if self.remote_offer.is_some() && !self.channel_options.is_empty() {
            return None;
        }
        Some(build_plan(&self.config, &self.remote_offer, &self.channel_options))
    }
}

} // verus!
