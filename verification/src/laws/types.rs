//! What the plain values are by default.

use vstd::prelude::*;

use crate::types::BundlePolicy;
use crate::types::DataChannelOptions;
use crate::types::ICECandidate;
use crate::types::ICECredentialType;
use crate::types::ICEServer;
use crate::types::ICETransportPolicy;
use crate::types::PeerConfiguration;
use crate::types::RTCPMuxPolicy;

verus! {

/// A default configuration has no servers, the default policies, no peer identity and an empty
/// candidate pool.
pub proof fn configurations_default_to_no_servers(
    config: PeerConfiguration,
    transport: ICETransportPolicy,
    bundle: BundlePolicy,
    mux: RTCPMuxPolicy,
)
    requires
        call_ensures(<PeerConfiguration as Default>::default, (), config),
        call_ensures(<ICETransportPolicy as Default>::default, (), transport),
        call_ensures(<BundlePolicy as Default>::default, (), bundle),
        call_ensures(<RTCPMuxPolicy as Default>::default, (), mux),
    ensures
        config.ice_servers@.len() == 0,
        config.ice_transport_policy == transport && transport is All,
        config.bundle_policy == bundle && bundle is Balanced,
        config.rtcp_mux_policy == mux && mux is Require,
        config.peer_identity@.len() == 0,
        config.ice_candidate_pool_size == 0,
{
}

/// A default server has no URLs and no credentials, and takes a password.
pub proof fn servers_default_to_no_credentials(
    server: ICEServer,
    credential_type: ICECredentialType,
)
    requires
        call_ensures(<ICEServer as Default>::default, (), server),
        call_ensures(<ICECredentialType as Default>::default, (), credential_type),
    ensures
        server.urls@.len() == 0,
        server.username@.len() == 0,
        server.credential@.len() == 0,
        server.credential_type == credential_type && credential_type is Password,
{
}

/// A default candidate has no text, and nothing is set of it.
pub proof fn candidates_default_to_nothing(candidate: ICECandidate)
    requires
        call_ensures(<ICECandidate as Default>::default, (), candidate),
    ensures
        candidate.candidate@.len() == 0,
        candidate.sdp_mid is None,
        candidate.sdp_mline_index is None,
        candidate.username_fragment is None,
{
}

/// By default no option of a channel is set.
pub proof fn channel_options_default_to_none(options: DataChannelOptions)
    requires
        call_ensures(<DataChannelOptions as Default>::default, (), options),
    ensures
        options.ordered is None,
        options.max_packet_life_time is None,
        options.max_retransmits is None,
        options.protocol is None,
        options.negotiated is None,
{
}

} // verus!
