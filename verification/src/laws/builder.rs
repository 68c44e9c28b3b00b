//! What holds of the builder of peer connections.

use vstd::prelude::*;

use crate::builder::default_config;
use crate::builder::PeerConnectionBuilder;
use crate::builder::PeerConnectionBuilderError;
use crate::builder::SimpleLocalPeerConnection;
use crate::builder::SimpleRemotePeerConnection;
use crate::connection::BuildPlan;
use crate::connection::BuildStep;
use crate::platform::native::Native;
use crate::platform::wasm::Wasm;
use crate::platform::Platform;
use crate::text::decimal;
use crate::types::DataChannelOptions;
use crate::types::PeerConfiguration;
use crate::types::SessionDescription;

verus! {

/// Where no configuration was set, two public STUN servers are used, without credentials, and the
/// default policies.
pub proof fn default_servers_are_public(config: PeerConfiguration)
    requires
        call_ensures(default_config, (), config),
    ensures
        config.ice_servers@.len() == 1,
        config.ice_servers@[0].urls@.len() == 2,
        config.ice_servers@[0].urls@[0]@ == "stun:stun.l.google.com:19302"@,
        config.ice_servers@[0].urls@[1]@ == "stun:stun1.l.google.com:19302"@,
        config.ice_servers@[0].username@.len() == 0,
        config.ice_servers@[0].credential@.len() == 0,
        config.ice_servers@[0].credential_type is Password,
        config.ice_transport_policy is All,
        config.bundle_policy is Balanced,
        config.rtcp_mux_policy is Require,
        config.peer_identity@.len() == 0,
        config.ice_candidate_pool_size == 0,
{
}

/// A new builder has the default configuration, buffers sixteen messages, and has neither an offer
/// nor channels. It makes no difference whether it was made by `new` or by default.
pub proof fn new_builders_have_the_defaults<P: Platform>(builder: PeerConnectionBuilder<P>)
    requires
        call_ensures(PeerConnectionBuilder::<P>::new, (), builder) || call_ensures(
            <PeerConnectionBuilder<P> as Default>::default,
            (),
            builder,
        ),
    ensures
        builder@.config.ice_servers@.len() == 1,
        builder@.config.ice_servers@[0].urls@.len() == 2,
        builder@.config.ice_servers@[0].urls@[0]@ == "stun:stun.l.google.com:19302"@,
        builder@.config.ice_servers@[0].urls@[1]@ == "stun:stun1.l.google.com:19302"@,
        builder@.config.ice_servers@[0].username@.len() == 0,
        builder@.config.ice_servers@[0].credential@.len() == 0,
        builder@.config.ice_servers@[0].credential_type is Password,
        builder@.config.ice_transport_policy is All,
        builder@.config.bundle_policy is Balanced,
        builder@.config.rtcp_mux_policy is Require,
        builder@.config.peer_identity@.len() == 0,
        builder@.config.ice_candidate_pool_size == 0,
        builder@.outgoing_buffer == 16,
        builder@.remote_offer is None,
        builder@.channel_options.len() == 0,
{
}

/// Setting the configuration changes nothing else.
pub proof fn configurations_are_set<P: Platform>(
    builder: PeerConnectionBuilder<P>,
    set: PeerConfiguration,
    after: PeerConnectionBuilder<P>,
)
    requires
        call_ensures(PeerConnectionBuilder::<P>::set_config, (builder, set), after),
    ensures
        after@.config == set,
        after@.outgoing_buffer == builder@.outgoing_buffer,
        after@.remote_offer == builder@.remote_offer,
        after@.channel_options == builder@.channel_options,
{
}

/// Setting the size of the outgoing buffer changes nothing else.
pub proof fn buffers_are_set<P: Platform>(
    builder: PeerConnectionBuilder<P>,
    set: usize,
    after: PeerConnectionBuilder<P>,
)
    requires
        call_ensures(PeerConnectionBuilder::<P>::set_outgoing_buffer, (builder, set), after),
    ensures
        after@.outgoing_buffer == set,
        after@.config == builder@.config,
        after@.remote_offer == builder@.remote_offer,
        after@.channel_options == builder@.channel_options,
{
}

/// An offer of a remote peer is refused where there are channels to create, and there alone.
/// Otherwise it is taken, and nothing else changes.
pub proof fn offers_are_set_where_there_are_no_channels<P: Platform>(
    builder: PeerConnectionBuilder<P>,
    set: Option<SessionDescription>,
    after: Result<PeerConnectionBuilder<P>, PeerConnectionBuilderError>,
)
    requires
        call_ensures(PeerConnectionBuilder::<P>::with_remote_offer, (builder, set), after),
    ensures
        after is Ok <==> builder@.channel_options.len() == 0,
        after matches Ok(after) ==> {
            &&& after@.remote_offer == set
            &&& after@.config == builder@.config
            &&& after@.outgoing_buffer == builder@.outgoing_buffer
            &&& after@.channel_options == builder@.channel_options
        },
{
}

/// Channels to create are refused where there is an offer of a remote peer, and there alone.
/// Otherwise they are all taken, in their order, and nothing else changes.
pub proof fn channels_are_set_where_there_is_no_offer<P: Platform>(
    builder: PeerConnectionBuilder<P>,
    set: Vec<(String, DataChannelOptions)>,
    after: Result<PeerConnectionBuilder<P>, PeerConnectionBuilderError>,
)
    requires
        call_ensures(PeerConnectionBuilder::<P>::with_channel_options, (builder, set), after),
    ensures
        after is Ok <==> builder@.remote_offer is None,
        after matches Ok(after) ==> {
            &&& after@.channel_options == set@
            &&& after@.config == builder@.config
            &&& after@.outgoing_buffer == builder@.outgoing_buffer
            &&& after@.remote_offer == builder@.remote_offer
        },
{
}

/// Of an offer and channels, the one that was set second is refused, whichever came first.
pub proof fn offers_and_channels_exclude_each_other<P: Platform>(
    builder: PeerConnectionBuilder<P>,
    offer: SessionDescription,
    channels: Vec<(String, DataChannelOptions)>,
    offering: PeerConnectionBuilder<P>,
    answering: PeerConnectionBuilder<P>,
    late_offer: Result<PeerConnectionBuilder<P>, PeerConnectionBuilderError>,
    late_channels: Result<PeerConnectionBuilder<P>, PeerConnectionBuilderError>,
)
    requires
        channels@.len() > 0,
        call_ensures(
            PeerConnectionBuilder::<P>::with_channel_options,
            (builder, channels),
            Ok::<PeerConnectionBuilder<P>, PeerConnectionBuilderError>(offering),
        ),
        call_ensures(
            PeerConnectionBuilder::<P>::with_remote_offer,
            (offering, Some(offer)),
            late_offer,
        ),
        call_ensures(
            PeerConnectionBuilder::<P>::with_remote_offer,
            (builder, Some(offer)),
            Ok::<PeerConnectionBuilder<P>, PeerConnectionBuilderError>(answering),
        ),
        call_ensures(
            PeerConnectionBuilder::<P>::with_channel_options,
            (answering, channels),
            late_channels,
        ),
    ensures
        late_offer is Err,
        late_channels is Err,
{
}

/// What was set is read as it was. No builder has both an offer and channels.
pub proof fn settings_are_read_as_they_were_set<P: Platform>(
    builder: &PeerConnectionBuilder<P>,
    config: &PeerConfiguration,
    outgoing_buffer: usize,
    remote_offer: &Option<SessionDescription>,
    channel_options: &Vec<(String, DataChannelOptions)>,
)
    requires
        call_ensures(PeerConnectionBuilder::<P>::config, (builder,), config),
        call_ensures(PeerConnectionBuilder::<P>::outgoing_buffer, (builder,), outgoing_buffer),
        call_ensures(PeerConnectionBuilder::<P>::remote_offer, (builder,), remote_offer),
        call_ensures(PeerConnectionBuilder::<P>::channel_options, (builder,), channel_options),
    ensures
        *config == builder@.config,
        outgoing_buffer == builder@.outgoing_buffer,
        *remote_offer == builder@.remote_offer,
        channel_options@ == builder@.channel_options,
        *remote_offer is None || channel_options@.len() == 0,
{
}

/// A simple local peer connection offers one channel, in order or not as was asked, with the default
/// configuration.
pub proof fn simple_local_connections_offer_one_channel<P: Platform>(
    ordered: bool,
    builder: PeerConnectionBuilder<P>,
)
    requires
        call_ensures(SimpleLocalPeerConnection::build::<P>, (ordered,), builder),
    ensures
        builder@.config.ice_servers@.len() == 1,
        builder@.config.ice_servers@[0].urls@.len() == 2,
        builder@.config.ice_servers@[0].urls@[0]@ == "stun:stun.l.google.com:19302"@,
        builder@.config.ice_servers@[0].urls@[1]@ == "stun:stun1.l.google.com:19302"@,
        builder@.config.ice_servers@[0].username@.len() == 0,
        builder@.config.ice_servers@[0].credential@.len() == 0,
        builder@.config.ice_servers@[0].credential_type is Password,
        builder@.config.ice_transport_policy is All,
        builder@.config.bundle_policy is Balanced,
        builder@.config.rtcp_mux_policy is Require,
        builder@.config.peer_identity@.len() == 0,
        builder@.config.ice_candidate_pool_size == 0,
        builder@.outgoing_buffer == 16,
        builder@.remote_offer is None,
        builder@.channel_options.len() == 1,
        builder@.channel_options[0].0@ == "simple_channel_"@,
        builder@.channel_options[0].1.ordered == Some(ordered),
        builder@.channel_options[0].1.max_packet_life_time is None,
        builder@.channel_options[0].1.max_retransmits is None,
        builder@.channel_options[0].1.protocol is None,
        builder@.channel_options[0].1.negotiated is None,
{
}

/// A simple remote peer connection answers the offer, with the default configuration.
pub proof fn simple_remote_connections_answer_the_offer<P: Platform>(
    offer: SessionDescription,
    builder: PeerConnectionBuilder<P>,
)
    requires
        call_ensures(SimpleRemotePeerConnection::build::<P>, (offer,), builder),
    ensures
        builder@.config.ice_servers@.len() == 1,
        builder@.config.ice_servers@[0].urls@.len() == 2,
        builder@.config.ice_servers@[0].urls@[0]@ == "stun:stun.l.google.com:19302"@,
        builder@.config.ice_servers@[0].urls@[1]@ == "stun:stun1.l.google.com:19302"@,
        builder@.config.ice_servers@[0].username@.len() == 0,
        builder@.config.ice_servers@[0].credential@.len() == 0,
        builder@.config.ice_servers@[0].credential_type is Password,
        builder@.config.ice_transport_policy is All,
        builder@.config.bundle_policy is Balanced,
        builder@.config.rtcp_mux_policy is Require,
        builder@.config.peer_identity@.len() == 0,
        builder@.config.ice_candidate_pool_size == 0,
        builder@.outgoing_buffer == 16,
        builder@.remote_offer == Some(offer),
        builder@.channel_options.len() == 0,
{
}

/// A native connection is built from what the builder was told: it answers the offer of a remote
/// peer, or creates every channel, in their order, and makes an offer.
pub proof fn native_plans_follow_the_settings(
    builder: &PeerConnectionBuilder<Native>,
    plan: BuildPlan<PeerConfiguration, DataChannelOptions>,
)
    requires
        call_ensures(PeerConnectionBuilder::<Native>::build, (builder,), plan),
    ensures
        *plan.config == builder@.config,
        plan.is_offerer <==> builder@.remote_offer is None,
        builder@.remote_offer matches Some(offer) ==> {
            &&& plan.steps@.len() == 3
            &&& plan.steps@[0] == BuildStep::<DataChannelOptions>::SetRemoteDescription(&offer)
            &&& plan.steps@[1] is CreateAnswer
            &&& plan.steps@[2] is SetLocalDescription
        },
        builder@.remote_offer is None ==> {
            &&& plan.steps@.len() == builder@.channel_options.len() + 2
            &&& forall|i: int|
                0 <= i < builder@.channel_options.len() ==> {
                    &&& #[trigger] plan.steps@[i] matches BuildStep::CreateDataChannel(
                        index,
                        label,
                        options,
                    )
                    &&& index == i
                    &&& label@ == builder@.channel_options[i].0@ + decimal(i as nat)
                    &&& *options == builder@.channel_options[i].1
                }
            &&& plan.steps@[builder@.channel_options.len() as int] is CreateOffer
            &&& plan.steps@[builder@.channel_options.len() as int + 1] is SetLocalDescription
        },
{
}

/// A connection of the browser is built from what the builder was told: it answers the offer of a
/// remote peer, or creates every channel, in their order, and makes an offer.
pub proof fn browser_plans_follow_the_settings(
    builder: &PeerConnectionBuilder<Wasm>,
    plan: BuildPlan<PeerConfiguration, DataChannelOptions>,
)
    requires
        call_ensures(PeerConnectionBuilder::<Wasm>::build, (builder,), plan),
    ensures
        *plan.config == builder@.config,
        plan.is_offerer <==> builder@.remote_offer is None,
        builder@.remote_offer matches Some(offer) ==> {
            &&& plan.steps@.len() == 3
            &&& plan.steps@[0] == BuildStep::<DataChannelOptions>::SetRemoteDescription(&offer)
            &&& plan.steps@[1] is CreateAnswer
            &&& plan.steps@[2] is SetLocalDescription
        },
        builder@.remote_offer is None ==> {
            &&& plan.steps@.len() == builder@.channel_options.len() + 2
            &&& forall|i: int|
                0 <= i < builder@.channel_options.len() ==> {
                    &&& #[trigger] plan.steps@[i] matches BuildStep::CreateDataChannel(
                        index,
                        label,
                        options,
                    )
                    &&& index == i
                    &&& label@ == builder@.channel_options[i].0@ + decimal(i as nat)
                    &&& *options == builder@.channel_options[i].1
                }
            &&& plan.steps@[builder@.channel_options.len() as int] is CreateOffer
            &&& plan.steps@[builder@.channel_options.len() as int + 1] is SetLocalDescription
        },
{
}

/// Channels that were set are all created, by the connection that is built next.
pub proof fn channels_that_were_set_are_created(
    builder: PeerConnectionBuilder<Native>,
    channels: Vec<(String, DataChannelOptions)>,
    offering: PeerConnectionBuilder<Native>,
    plan: BuildPlan<PeerConfiguration, DataChannelOptions>,
    i: int,
)
    requires
        call_ensures(
            PeerConnectionBuilder::<Native>::with_channel_options,
            (builder, channels),
            Ok::<PeerConnectionBuilder<Native>, PeerConnectionBuilderError>(offering),
        ),
        call_ensures(PeerConnectionBuilder::<Native>::build, (&offering,), plan),
        0 <= i < channels@.len(),
    ensures
        plan.is_offerer,
        plan.steps@.len() == channels@.len() + 2,
        plan.steps@[i] matches BuildStep::CreateDataChannel(index, label, options) && index == i
            && label@ == channels@[i].0@ + decimal(i as nat) && *options == channels@[i].1,
{
    native_plans_follow_the_settings(&offering, plan);
}

/// An error of the builder says what excludes what.
pub proof fn builder_errors_say_what_conflicts(error: &PeerConnectionBuilderError, message: String)
    requires
        call_ensures(PeerConnectionBuilderError::message, (error,), message),
    ensures
        message@ == "remote offer is mutually exclusive with channel settings!"@,
{
}

} // verus!
