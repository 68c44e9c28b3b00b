//! What holds of peer connections whose settings are checked when they are built.

use vstd::prelude::*;

use crate::connection::BuildPlan;
use crate::connection::BuildStep;
use crate::generic::default_configuration;
use crate::generic::platform::native::Native;
use crate::generic::platform::web;
use crate::generic::platform::web::Web;
use crate::generic::platform::Platform;
use crate::generic::Configuration;
use crate::generic::DataChannelConfig;
use crate::generic::PeerConnectionBuilder;
use crate::generic::PeerConnectionBuilderError;
use crate::text::decimal;
use crate::types::ICECandidate;
use crate::types::SessionDescription;

verus! {

/// Where no configuration was set, two public STUN servers are used, without credentials, and
/// everything else is left open.
pub proof fn default_servers_are_public(config: Configuration)
    requires
        call_ensures(default_configuration, (), config),
    ensures
        config.ice_servers@.len() == 1,
        config.ice_servers@[0].urls@.len() == 2,
        config.ice_servers@[0].urls@[0]@ == "stun:stun.l.google.com:19302"@,
        config.ice_servers@[0].urls@[1]@ == "stun:stun1.l.google.com:19302"@,
        config.ice_servers@[0].username@.len() == 0,
        config.ice_servers@[0].credential@.len() == 0,
        config.ice_servers@[0].credential_type is None,
        config.ice_transport_policy is None,
        config.bundle_policy is None,
        config.rtcp_mux_policy is None,
        config.peer_identity@.len() == 0,
        config.certificates@.len() == 0,
        config.ice_candidate_pool_size == 0,
{
}

/// A new builder has the default configuration, buffers sixteen messages, and has neither an offer
/// nor channels. It makes no difference whether it was made by `new` or by default.
pub proof fn new_builders_have_the_defaults<P: Platform>(builder: PeerConnectionBuilder<P>)
    requires
        call_ensures(PeerConnectionBuilder::<P>::new, (), builder) || call_ensures(
            <PeerConnectionBuilder<P> as Default>::default,
            (),
            builder,
        ),
    ensures
        builder@.config.ice_servers@.len() == 1,
        builder@.config.ice_servers@[0].urls@.len() == 2,
        builder@.config.ice_servers@[0].urls@[0]@ == "stun:stun.l.google.com:19302"@,
        builder@.config.ice_servers@[0].urls@[1]@ == "stun:stun1.l.google.com:19302"@,
        builder@.config.ice_servers@[0].username@.len() == 0,
        builder@.config.ice_servers@[0].credential@.len() == 0,
        builder@.config.ice_servers@[0].credential_type is None,
        builder@.config.ice_transport_policy is None,
        builder@.config.bundle_policy is None,
        builder@.config.rtcp_mux_policy is None,
        builder@.config.peer_identity@.len() == 0,
        builder@.config.certificates@.len() == 0,
        builder@.config.ice_candidate_pool_size == 0,
        builder@.outgoing_buffer == 16,
        builder@.remote_offer is None,
        builder@.channel_options.len() == 0,
{
}

/// Setting the configuration changes nothing else.
pub proof fn configurations_are_set<P: Platform>(
    builder: &mut PeerConnectionBuilder<P>,
    set: Configuration,
    after: &PeerConnectionBuilder<P>,
)
    requires
        call_ensures(PeerConnectionBuilder::<P>::set_config, (builder, set), after),
    ensures
        *after == *final(builder),
        after@.config == set,
        after@.outgoing_buffer == old(builder)@.outgoing_buffer,
        after@.remote_offer == old(builder)@.remote_offer,
        after@.channel_options == old(builder)@.channel_options,
{
}

/// Setting the size of the outgoing buffer changes nothing else.
pub proof fn buffers_are_set<P: Platform>(
    builder: &mut PeerConnectionBuilder<P>,
    set: usize,
    after: &PeerConnectionBuilder<P>,
)
    requires
        call_ensures(PeerConnectionBuilder::<P>::set_outgoing_buffer, (builder, set), after),
    ensures
        *after == *final(builder),
        after@.outgoing_buffer == set,
        after@.config == old(builder)@.config,
        after@.remote_offer == old(builder)@.remote_offer,
        after@.channel_options == old(builder)@.channel_options,
{
}

/// Setting the offer of a remote peer changes nothing else.
pub proof fn offers_are_set<P: Platform>(
    builder: &mut PeerConnectionBuilder<P>,
    set: Option<SessionDescription>,
    after: &PeerConnectionBuilder<P>,
)
    requires
        call_ensures(PeerConnectionBuilder::<P>::with_remote_offer, (builder, set), after),
    ensures
        *after == *final(builder),
        after@.remote_offer == set,
        after@.config == old(builder)@.config,
        after@.outgoing_buffer == old(builder)@.outgoing_buffer,
        after@.channel_options == old(builder)@.channel_options,
{
}

/// Setting the channels takes all of them, in their order, and changes nothing else.
pub proof fn channels_are_set<P: Platform>(
    builder: &mut PeerConnectionBuilder<P>,
    set: Vec<(String, DataChannelConfig)>,
    after: &PeerConnectionBuilder<P>,
)
    requires
        call_ensures(PeerConnectionBuilder::<P>::with_channel_options, (builder, set), after),
    ensures
        *after == *final(builder),
        after@.channel_options == set@,
        after@.config == old(builder)@.config,
        after@.outgoing_buffer == old(builder)@.outgoing_buffer,
        after@.remote_offer == old(builder)@.remote_offer,
{
}

/// The size of the outgoing buffer is read as it was set.
pub proof fn buffers_are_read_as_they_were_set<P: Platform>(
    builder: &PeerConnectionBuilder<P>,
    size: usize,
)
    requires
        call_ensures(PeerConnectionBuilder::<P>::outgoing_buffer, (builder,), size),
    ensures
        size == builder@.outgoing_buffer,
{
}

/// A native connection is refused where there are both an offer of a remote peer and channels, and
/// there alone. Otherwise it answers the offer, or creates every channel, in their order, and makes
/// an offer.
pub proof fn native_plans_follow_the_settings(
    builder: &PeerConnectionBuilder<Native>,
    outcome: Result<BuildPlan<Configuration, DataChannelConfig>, PeerConnectionBuilderError<webrtc::Error>>,
)
    requires
        call_ensures(PeerConnectionBuilder::<Native>::build, (builder,), outcome),
    ensures
        outcome is Err <==> builder@.remote_offer is Some && builder@.channel_options.len() > 0,
        outcome matches Err(error) ==> error is ConflictingBuildOptions,
        outcome matches Ok(plan) ==> {
            &&& *plan.config == builder@.config
            &&& plan.is_offerer <==> builder@.remote_offer is None
            &&& builder@.remote_offer matches Some(offer) ==> {
                &&& plan.steps@.len() == 3
                &&& plan.steps@[0] == BuildStep::<DataChannelConfig>::SetRemoteDescription(&offer)
                &&& plan.steps@[1] is CreateAnswer
                &&& plan.steps@[2] is SetLocalDescription
            }
            &&& builder@.remote_offer is None ==> {
                &&& plan.steps@.len() == builder@.channel_options.len() + 2
                &&& forall|i: int|
                    0 <= i < builder@.channel_options.len() ==> {
                        &&& #[trigger] plan.steps@[i] matches BuildStep::CreateDataChannel(
                            index,
                            label,
                            options,
                        )
                        &&& index == i
                        &&& label@ == builder@.channel_options[i].0@ + decimal(i as nat)
                        &&& *options == builder@.channel_options[i].1
                    }
                &&& plan.steps@[builder@.channel_options.len() as int] is CreateOffer
                &&& plan.steps@[builder@.channel_options.len() as int + 1] is SetLocalDescription
            }
        },
{
}

/// A connection of the browser is refused where there are both an offer of a remote peer and
/// channels, and there alone. Otherwise it answers the offer, or creates every channel, in their
/// order, and makes an offer.
pub proof fn browser_plans_follow_the_settings(
    builder: &PeerConnectionBuilder<Web>,
    outcome: Result<BuildPlan<Configuration, DataChannelConfig>, String>,
)
    requires
        call_ensures(PeerConnectionBuilder::<Web>::build, (builder,), outcome),
    ensures
        outcome is Err <==> builder@.remote_offer is Some && builder@.channel_options.len() > 0,
        outcome matches Err(error) ==> error@
            == "remote offer is mutually exclusive with channel settings"@,
        outcome matches Ok(plan) ==> {
            &&& *plan.config == builder@.config
            &&& plan.is_offerer <==> builder@.remote_offer is None
            &&& builder@.remote_offer matches Some(offer) ==> {
                &&& plan.steps@.len() == 3
                &&& plan.steps@[0] == BuildStep::<DataChannelConfig>::SetRemoteDescription(&offer)
                &&& plan.steps@[1] is CreateAnswer
                &&& plan.steps@[2] is SetLocalDescription
            }
            &&& builder@.remote_offer is None ==> {
                &&& plan.steps@.len() == builder@.channel_options.len() + 2
                &&& forall|i: int|
                    0 <= i < builder@.channel_options.len() ==> {
                        &&& #[trigger] plan.steps@[i] matches BuildStep::CreateDataChannel(
                            index,
                            label,
                            options,
                        )
                        &&& index == i
                        &&& label@ == builder@.channel_options[i].0@ + decimal(i as nat)
                        &&& *options == builder@.channel_options[i].1
                    }
                &&& plan.steps@[builder@.channel_options.len() as int] is CreateOffer
                &&& plan.steps@[builder@.channel_options.len() as int + 1] is SetLocalDescription
            }
        },
{
}

/// Candidates that can be read are sent on unchanged, and nothing else is.
pub proof fn readable_candidates_are_sent_on<E>(
    candidate: Option<Result<ICECandidate, E>>,
    message: Option<ICECandidate>,
)
    requires
        call_ensures(web::handle_ice_candidate::<E>, (candidate,), message),
    ensures
        message is Some <==> candidate is Some && candidate->0 is Ok,
        message matches Some(sent) ==> candidate->0->Ok_0 == sent,
{
}

/// An error of the platform is carried as it is.
pub proof fn platform_errors_are_carried<E>(error: E, carried: PeerConnectionBuilderError<E>)
    requires
        call_ensures(<PeerConnectionBuilderError<E> as From<E>>::from, (error,), carried),
    ensures
        carried == PeerConnectionBuilderError::WebRTCError(error),
{
}

/// An error of the builder says what excludes what. An error of the platform says, in brackets, what
/// the platform says.
pub proof fn builder_errors_say_their_reason<E, F: Fn(&E) -> String>(
    error: &PeerConnectionBuilderError<E>,
    describe: F,
    message: String,
)
    requires
        call_ensures(PeerConnectionBuilderError::<E>::message, (error, describe), message),
    ensures
        error is ConflictingBuildOptions ==> message@
            == "remote offer is mutually exclusive with channel settings!"@,
        *error matches PeerConnectionBuilderError::WebRTCError(reported) ==> exists|reason: String|
            #![trigger call_ensures(describe, (&reported,), reason)]
            call_ensures(describe, (&reported,), reason) && message@ == "webrtc error ("@ + reason@
                + ")"@,
{
}

/// By default no option of a channel is set.
pub proof fn channel_options_default_to_none(config: DataChannelConfig)
    requires
        call_ensures(<DataChannelConfig as Default>::default, (), config),
    ensures
        config.ordered is None,
        config.max_packet_life_time is None,
        config.max_retransmits is None,
        config.protocol is None,
        config.negotiated is None,
{
}

} // verus!
