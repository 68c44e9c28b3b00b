//! Builder for WebRTC peer connections.

use core::marker::PhantomData;

use vstd::prelude::*;

use crate::platform::Platform;
use crate::types::BundlePolicy;
use crate::types::DataChannelOptions;
use crate::types::ICECredentialType;
use crate::types::ICEServer;
use crate::types::ICETransportPolicy;
use crate::types::PeerConfiguration;
use crate::types::RTCPMuxPolicy;
use crate::types::SessionDescription;

verus! {

/// Error type for [`PeerConnectionBuilder`].
#[derive(Debug, Clone, Copy, PartialEq, Eq, Structural)]
pub enum PeerConnectionBuilderError {
    /// Error raised due to conflicting build options.
    ConflictingBuildOptions,
}

impl PeerConnectionBuilderError {
    /// What the error says.
    pub fn message(&self) -> (message: String)
        ensures
            message@ == "remote offer is mutually exclusive with channel settings!"@,
    {
        "remote offer is mutually exclusive with channel settings!".to_owned()
    }
}

/// Whether a configuration is the one that is used where none was set: two public STUN servers,
/// without credentials, and the default policies.
pub open spec fn is_default_config(config: PeerConfiguration) -> bool {
    &&& config.ice_servers@.len() == 1
    &&& config.is_default_with(config.ice_servers@)
    &&& is_default_server(config.ice_servers@[0])
}

/// Whether a server entry is the one that is used where none was set.
pub open spec fn is_default_server(server: ICEServer) -> bool {
    &&& server.urls@.len() == 2
    &&& server.urls@[0]@ == "stun:stun.l.google.com:19302"@
    &&& server.urls@[1]@ == "stun:stun1.l.google.com:19302"@
    &&& server.username@ == Seq::<char>::empty()
    &&& server.credential@ == Seq::<char>::empty()
    &&& server.credential_type == ICECredentialType::Password
}

/// The configuration that is used where none was set.
pub fn default_config() -> (config: PeerConfiguration)
    ensures
        is_default_config(config),
{
    let urls = vec![
        "stun:stun.l.google.com:19302".to_owned(),
        "stun:stun1.l.google.com:19302".to_owned(),
    ];
    let server = ICEServer {
        urls,
        username: String::new(),
        credential: String::new(),
        credential_type: ICECredentialType::Password,
    };
    PeerConfiguration {
        ice_servers: vec![server],
        ice_transport_policy: ICETransportPolicy::All,
        bundle_policy: BundlePolicy::Balanced,
        rtcp_mux_policy: RTCPMuxPolicy::Require,
        peer_identity: String::new(),
        ice_candidate_pool_size: 0,
    }
}

/// How many outgoing messages a channel buffers where nothing else was set.
pub const DEFAULT_OUTGOING_BUFFER: usize = 16;

/// What a builder was told.
#[verifier::ext_equal]
pub struct BuilderView {
    pub config: PeerConfiguration,
    pub outgoing_buffer: usize,
    pub remote_offer: Option<SessionDescription>,
    pub channel_options: Seq<(String, DataChannelOptions)>,
}

impl BuilderView {
    /// An offer of a remote peer and channels to create exclude each other.
    pub open spec fn is_consistent(self) -> bool {
        self.remote_offer is None || self.channel_options.len() == 0
    }
}

/// Builder for WebRTC Peer Connections.
#[derive(Debug)]
#[verifier::reject_recursive_types(P)]
pub struct PeerConnectionBuilder<P: Platform> {
    _platform: PhantomData<P>,
    config: PeerConfiguration,
    outgoing_buffer: usize,
    remote_offer: Option<SessionDescription>,
    channel_options: Vec<(String, DataChannelOptions)>,
}

impl<P: Platform> View for PeerConnectionBuilder<P> {
    type V = BuilderView;

    closed spec fn view(&self) -> BuilderView {
        BuilderView {
            config: self.config,
            outgoing_buffer: self.outgoing_buffer,
            remote_offer: self.remote_offer,
            channel_options: self.channel_options@,
        }
    }
}

impl<P: Platform> Default for PeerConnectionBuilder<P> {
    fn default() -> (builder: Self)
        ensures
            is_default_config(builder@.config),
            builder@.outgoing_buffer == DEFAULT_OUTGOING_BUFFER,
            builder@.remote_offer is None,
            builder@.channel_options.len() == 0,
    {
        PeerConnectionBuilder {
            _platform: PhantomData,
            config: default_config(),
            outgoing_buffer: DEFAULT_OUTGOING_BUFFER,
            remote_offer: None,
            channel_options: Vec::new(),
        }
    }
}

impl<P: Platform> PeerConnectionBuilder<P> {
    /// An offer of a remote peer and channels to create exclude each other.
    #[verifier::type_invariant]
    spec fn consistent(&self) -> bool {
        self@.is_consistent()
    }

    /// Create new PeerConnectionBuilder (equivalent to PeerConnectionBuilder::default()).
    pub fn new() -> (builder: Self)
        ensures
            is_default_config(builder@.config),
            builder@.outgoing_buffer == DEFAULT_OUTGOING_BUFFER,
            builder@.remote_offer is None,
            builder@.channel_options.len() == 0,
    {
        Self::default()
    }

    /// Specify internal WebRTC peer configuration settings.
    pub fn set_config(self, set: PeerConfiguration) -> (builder: Self)
        ensures
            builder@ == (BuilderView { config: set, ..self@ }),
    {
        proof {
            use_type_invariant(&self);
        }
        PeerConnectionBuilder { config: set, ..self }
    }

    /// Specify outgoing data channel buffer size.
    pub fn set_outgoing_buffer(self, set: usize) -> (builder: Self)
        ensures
            builder@ == (BuilderView { outgoing_buffer: set, ..self@ }),
    {
        proof {
            use_type_invariant(&self);
        }
        PeerConnectionBuilder { outgoing_buffer: set, ..self }
    }

    /// Provide an Offer as created by a remote peer.
    ///
    /// This option is mutually exclusive with the `with_channel_` settings.
    pub fn with_remote_offer(self, set: Option<SessionDescription>) -> (builder: Result<
        Self,
        PeerConnectionBuilderError,
    >)
        ensures
            if self@.channel_options.len() == 0 {
                &&& builder is Ok
                &&& builder->Ok_0@ == (BuilderView { remote_offer: set, ..self@ })
            } else {
                builder is Err
            },
    {
        if self.channel_options.is_empty() {
            Ok(PeerConnectionBuilder { remote_offer: set, ..self })
        } else {
            Err(PeerConnectionBuilderError::ConflictingBuildOptions)
        }
    }

    /// Provide options for initial data channel creation (as an offerer).
    ///
    /// This option is mutually exclusive with `with_remote_offer`.
    pub fn with_channel_options(self, set: Vec<(String, DataChannelOptions)>) -> (builder: Result<
        Self,
        PeerConnectionBuilderError,
    >)
        ensures
            if self@.remote_offer is None {
                &&& builder is Ok
                &&& builder->Ok_0@ == (BuilderView { channel_options: set@, ..self@ })
            } else {
                builder is Err
            },
    {
        if self.remote_offer.is_none() {
            Ok(PeerConnectionBuilder { channel_options: set, ..self })
        } else {
            Err(PeerConnectionBuilderError::ConflictingBuildOptions)
        }
    }

    /// The configuration that was set.
    pub fn config(&self) -> (config: &PeerConfiguration)
        ensures
            *config == self@.config,
    {
        &self.config
    }

    /// The outgoing data channel buffer size that was set.
    pub fn outgoing_buffer(&self) -> (size: usize)
        ensures
            size == self@.outgoing_buffer,
    {
        self.outgoing_buffer
    }

    /// The offer of a remote peer, if one was provided. Where there is one, there are no channels.
    pub fn remote_offer(&self) -> (offer: &Option<SessionDescription>)
        ensures
            *offer == self@.remote_offer,
            self@.is_consistent(),
    {
        proof {
            use_type_invariant(self);
        }
        &self.remote_offer
    }

    /// The channels to create. Where there are any, there is no offer of a remote peer.
    pub fn channel_options(&self) -> (options: &Vec<(String, DataChannelOptions)>)
        ensures
            options@ == self@.channel_options,
            self@.is_consistent(),
    {
        proof {
            use_type_invariant(self);
        }
        &self.channel_options
    }
}

/// Helper for creating a simple 'local' (offerer) peer connection without having to configure the
/// [`PeerConnectionBuilder`].
///
/// A "simple peer connection" uses default google STUN/TURN servers, and default policies. It
/// includes a single data channel.
#[derive(Debug)]
pub struct SimpleLocalPeerConnection {}

impl SimpleLocalPeerConnection {
    /// The builder of a simple local peer connection with a single data channel.
    ///
    /// Ordered indicates whether the data transmitted across the data channel is delivered in
    /// order.
    pub fn build<P: Platform>(ordered: bool) -> (builder: PeerConnectionBuilder<P>)
        ensures
            is_default_config(builder@.config),
            builder@.outgoing_buffer == DEFAULT_OUTGOING_BUFFER,
            builder@.remote_offer is None,
            builder@.channel_options.len() == 1,
            builder@.channel_options[0].0@ == "simple_channel_"@,
            builder@.channel_options[0].1 == (DataChannelOptions {
                ordered: Some(ordered),
                max_packet_life_time: None,
                max_retransmits: None,
                protocol: None,
                negotiated: None,
            }),
    {
        // single data channel with the label prefix "simple_channel_"
        let channel_options = vec![
            (
                "simple_channel_".to_owned(),
                DataChannelOptions {
                    ordered: Some(ordered),
                    max_packet_life_time: None,
                    max_retransmits: None,
                    protocol: None,
                    negotiated: None,
                },
            ),
        ];
        PeerConnectionBuilder::new().with_channel_options(channel_options).unwrap()
    }
}

/// Helper for creating a simple 'remote' (answerer) peer connection without having to configure the
/// [`PeerConnectionBuilder`].
///
/// A "simple peer connection" uses default google STUN/TURN servers, and default policies. It
/// includes a single data channel.
#[derive(Debug)]
pub struct SimpleRemotePeerConnection {}

impl SimpleRemotePeerConnection {
    /// The builder of a simple remote peer connection from a received offer.
    pub fn build<P: Platform>(offer: SessionDescription) -> (builder: PeerConnectionBuilder<P>)
        ensures
            is_default_config(builder@.config),
            builder@.outgoing_buffer == DEFAULT_OUTGOING_BUFFER,
            builder@.remote_offer == Some(offer),
            builder@.channel_options.len() == 0,
    {
        PeerConnectionBuilder::new().with_remote_offer(Some(offer)).unwrap()
    }
}

} // verus!
