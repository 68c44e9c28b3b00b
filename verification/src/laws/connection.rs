//! What holds of building a peer connection, and of the candidates that it gathers.

use vstd::prelude::*;

use crate::connection::answerer_steps;
use crate::connection::build_plan;
use crate::connection::channel_label;
use crate::connection::is_connected;
use crate::connection::offerer_steps;
use crate::connection::BuildPlan;
use crate::connection::BuildStep;
use crate::connection::CandidateCollector;
use crate::text::decimal;
use crate::types::ICECandidate;
use crate::types::PeerConnectionState;
use crate::types::SessionDescription;

verus! {

/// The label of a channel is its prefix, followed by its place in decimal.
pub proof fn labels_are_prefixes_and_places(prefix: &String, index: usize, label: String)
    requires
        call_ensures(channel_label, (prefix, index), label),
    ensures
        label@ == prefix@ + decimal(index as nat),
{
}

/// An answerer first accepts the offer, then creates an answer, then sets that as its local
/// description, and does nothing else.
pub proof fn answerers_answer_the_offer<D>(offer: &SessionDescription, steps: Vec<BuildStep<D>>)
    requires
        call_ensures(answerer_steps::<D>, (offer,), steps),
    ensures
        steps@.len() == 3,
        steps@[0] == BuildStep::<D>::SetRemoteDescription(offer),
        steps@[1] is CreateAnswer,
        steps@[2] is SetLocalDescription,
{
}

/// An offerer creates each of its channels, in their order, with the prefix and the place in its
/// label and with the options that were set for it. Then it creates an offer, sets that as its local
/// description, and does nothing else.
pub proof fn offerers_create_every_channel<D>(
    channels: &Vec<(String, D)>,
    steps: Vec<BuildStep<D>>,
)
    requires
        call_ensures(offerer_steps::<D>, (channels,), steps),
    ensures
        steps@.len() == channels@.len() + 2,
        forall|i: int|
            0 <= i < channels@.len() ==> {
                &&& #[trigger] steps@[i] matches BuildStep::CreateDataChannel(index, label, options)
                &&& index == i
                &&& label@ == channels@[i].0@ + decimal(i as nat)
                &&& *options == channels@[i].1
            },
        steps@[channels@.len() as int] is CreateOffer,
        steps@[channels@.len() as int + 1] is SetLocalDescription,
{
}

/// A connection is built with the configuration that was given. Who has an offer of a remote peer
/// answers it, and creates no channels; who has none creates every channel and makes an offer.
pub proof fn plans_follow_what_was_given<F, D>(
    config: &F,
    remote_offer: &Option<SessionDescription>,
    channels: &Vec<(String, D)>,
    plan: BuildPlan<F, D>,
)
    requires
        call_ensures(build_plan::<F, D>, (config, remote_offer, channels), plan),
    ensures
        *plan.config == *config,
        plan.is_offerer <==> *remote_offer is None,
        *remote_offer matches Some(offer) ==> {
            &&& plan.steps@.len() == 3
            &&& plan.steps@[0] == BuildStep::<D>::SetRemoteDescription(&offer)
            &&& plan.steps@[1] is CreateAnswer
            &&& plan.steps@[2] is SetLocalDescription
        },
        *remote_offer is None ==> {
            &&& plan.steps@.len() == channels@.len() + 2
            &&& forall|i: int|
                0 <= i < channels@.len() ==> {
                    &&& #[trigger] plan.steps@[i] matches BuildStep::CreateDataChannel(
                        index,
                        label,
                        options,
                    )
                    &&& index == i
                    &&& label@ == channels@[i].0@ + decimal(i as nat)
                    &&& *options == channels@[i].1
                }
            &&& plan.steps@[channels@.len() as int] is CreateOffer
            &&& plan.steps@[channels@.len() as int + 1] is SetLocalDescription
        },
{
}

/// Two channels of an offerer whose prefixes are the same have different labels.
pub proof fn channels_are_told_apart<D>(
    channels: &Vec<(String, D)>,
    steps: Vec<BuildStep<D>>,
    i: int,
    j: int,
)
    requires
        call_ensures(offerer_steps::<D>, (channels,), steps),
        0 <= i < j < channels@.len(),
        channels@[i].0@ == channels@[j].0@,
    ensures
        steps@[i]->CreateDataChannel_1@ != steps@[j]->CreateDataChannel_1@,
{
    offerers_create_every_channel(channels, steps);
    crate::connection::channel_labels_are_distinct(channels@[i].0@, i as nat, j as nat);
}

/// Nothing was gathered at first.
pub proof fn gathering_starts_with_nothing(collector: CandidateCollector)
    requires
        call_ensures(CandidateCollector::new, (), collector),
    ensures
        collector@.len() == 0,
{
}

/// A candidate is put behind those that were gathered before, which stay as they were, and more is
/// to come. The end of the gathering adds nothing, and nothing is to come.
pub proof fn candidates_are_gathered(
    collector: &mut CandidateCollector,
    message: Option<ICECandidate>,
    more: bool,
)
    requires
        call_ensures(CandidateCollector::receive, (collector, message), more),
    ensures
        more <==> message is Some,
        final(collector)@.take(old(collector)@.len() as int) == old(collector)@,
        message is None ==> final(collector)@.len() == old(collector)@.len(),
        message matches Some(candidate) ==> final(collector)@.len() == old(collector)@.len() + 1
            && final(collector)@.last() == candidate,
{
    assert(final(collector)@.take(old(collector)@.len() as int) =~= old(collector)@);
}

/// What was gathered is handed over whole.
pub proof fn candidates_are_handed_over(
    collector: CandidateCollector,
    candidates: Vec<ICECandidate>,
)
    requires
        call_ensures(CandidateCollector::finish, (collector,), candidates),
    ensures
        candidates@.len() == collector@.len(),
        forall|i: int| 0 <= i < candidates@.len() ==> #[trigger] candidates@[i] == collector@[i],
{
}

/// A connection is connected in one state only.
pub proof fn only_connected_is_connected(state: PeerConnectionState, connected: bool)
    requires
        call_ensures(is_connected, (state,), connected),
    ensures
        connected <==> state is Connected,
{
}

} // verus!
