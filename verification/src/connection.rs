//! What it takes to build a peer connection, and what a peer connection does with the events that a
//! platform reports. Nothing here depends on a particular WebRTC implementation.

use vstd::prelude::*;

use crate::text::append_decimal;
use crate::types::ICECandidate;
use crate::types::PeerConnectionState;
use crate::types::SessionDescription;

verus! {

/// The label of a channel: the prefix it was configured with, and its place among the channels.
pub open spec fn spec_channel_label(prefix: Seq<char>, index: nat) -> Seq<char> {
    prefix + crate::text::decimal(index)
}

/// The label of a channel: the prefix it was configured with, and its place among the channels.
pub fn channel_label(prefix: &String, index: usize) -> (label: String)
    ensures
        label@ == spec_channel_label(prefix@, index as nat),
{
    let mut label = prefix.clone();
    append_decimal(&mut label, index);
    label
}

/// Channels that share a prefix have different labels.
pub proof fn channel_labels_are_distinct(prefix: Seq<char>, i: nat, j: nat)
    requires
        i != j,
    ensures
        spec_channel_label(prefix, i) != spec_channel_label(prefix, j),
{
    if spec_channel_label(prefix, i) == spec_channel_label(prefix, j) {
        let a = crate::text::decimal(i);
        let b = crate::text::decimal(j);
        assert((prefix + a).skip(prefix.len() as int) =~= a);
        assert((prefix + b).skip(prefix.len() as int) =~= b);
        crate::text::decimal_is_injective(i, j);
    }
}

/// A step that building a peer connection takes, once the platform has created the connection and
/// handles its events.
#[derive(Debug)]
pub enum BuildStep<'a, D> {
    /// Set the remote description.
    SetRemoteDescription(&'a SessionDescription),
    /// Create an answer to the remote description.
    CreateAnswer,
    /// Create a data channel, given its place among the channels, its label and its options.
    CreateDataChannel(usize, String, &'a D),
    /// Create an offer.
    CreateOffer,
    /// Set the local description to the answer or the offer that was created.
    SetLocalDescription,
}

/// Whether these are the steps that an answerer takes: it accepts the offer and answers it.
pub open spec fn answers<D>(steps: Seq<BuildStep<D>>, offer: SessionDescription) -> bool {
    steps == seq![
        BuildStep::<D>::SetRemoteDescription(&offer),
        BuildStep::CreateAnswer,
        BuildStep::SetLocalDescription,
    ]
}

/// Whether a step creates the channel at that place, with a prefix for its label and options.
pub open spec fn creates_channel<D>(step: BuildStep<D>, index: int, channel: (String, D)) -> bool {
    step matches BuildStep::CreateDataChannel(i, label, options) && i == index && label@
        == spec_channel_label(channel.0@, index as nat) && *options == channel.1
}

/// Whether these are the steps that an offerer takes: it creates its channels, in their order, and
/// then makes an offer.
pub open spec fn offers<D>(steps: Seq<BuildStep<D>>, channels: Seq<(String, D)>) -> bool {
    &&& steps.len() == channels.len() + 2
    &&& forall|i: int|
        0 <= i < channels.len() ==> creates_channel(#[trigger] steps[i], i, channels[i])
    &&& steps[channels.len() as int] == BuildStep::<D>::CreateOffer
    &&& steps[channels.len() as int + 1] == BuildStep::<D>::SetLocalDescription
}

/// The steps of an answerer.
pub fn answerer_steps<'a, D>(offer: &'a SessionDescription) -> (steps: Vec<BuildStep<'a, D>>)
    ensures
        answers(steps@, *offer),
{
    let mut steps: Vec<BuildStep<'a, D>> = Vec::new();
    // set the remote SessionDescription (provided by remote peer via external signalling)
    steps.push(BuildStep::SetRemoteDescription(offer));
    steps.push(BuildStep::CreateAnswer);
    // sets the local SessionDescription (answer) and starts the UDP listeners
    steps.push(BuildStep::SetLocalDescription);
    assert(steps@ =~= seq![
        BuildStep::SetRemoteDescription(offer),
        BuildStep::CreateAnswer,
        BuildStep::SetLocalDescription,
    ]);
    steps
}

/// The steps of an offerer.
pub fn offerer_steps<'a, D>(channels: &'a Vec<(String, D)>) -> (steps: Vec<BuildStep<'a, D>>)
    ensures
        offers(steps@, channels@),
{
    let mut steps: Vec<BuildStep<'a, D>> = Vec::new();
    // create channels from options (we are offering)
    for index in 0..channels.len()
        invariant
            steps@.len() == index,
            forall|i: int|
                0 <= i < index ==> creates_channel(#[trigger] steps@[i], i, channels@[i]),
    {
        let ghost before = steps@;
        let label = channel_label(&channels[index].0, index);
        steps.push(BuildStep::CreateDataChannel(index, label, &channels[index].1));
        assert forall|i: int| 0 <= i < index + 1 implies creates_channel(
            #[trigger] steps@[i],
            i,
            channels@[i],
        ) by {
            if i < index {
                assert(steps@[i] == before[i]);
            }
        }
    }
    let ghost created = steps@;
    steps.push(BuildStep::CreateOffer);
    // sets the local SessionDescription (offer) and starts the UDP listeners
    steps.push(BuildStep::SetLocalDescription);
    assert forall|i: int| 0 <= i < channels@.len() implies creates_channel(
        #[trigger] steps@[i],
        i,
        channels@[i],
    ) by {
        assert(steps@[i] == created[i]);
    }
    steps
}

/// How a peer connection is built.
#[derive(Debug)]
pub struct BuildPlan<'a, F, D> {
    /// The configuration that the platform creates the connection with.
    pub config: &'a F,
    /// Whether the peer makes the offer. An answerer takes the channels that the offerer creates.
    pub is_offerer: bool,
    /// The steps that follow, each after the one before it has succeeded.
    pub steps: Vec<BuildStep<'a, D>>,
}

/// Whether this is how a peer connection is built from a configuration, an offer of a remote peer,
/// if there is one, and channels.
pub open spec fn plans<F, D>(
    plan: BuildPlan<F, D>,
    config: F,
    remote_offer: Option<SessionDescription>,
    channels: Seq<(String, D)>,
) -> bool {
    &&& *plan.config == config
    &&& plan.is_offerer == (remote_offer is None)
    &&& match remote_offer {
        Some(offer) => answers(plan.steps@, offer),
        None => offers(plan.steps@, channels),
    }
}

/// How a peer connection is built. If an offer is provided, we are an answerer and are receiving the
/// data channels; otherwise, we are an offerer and must configure and create the data channels.
pub fn build_plan<'a, F, D>(
    config: &'a F,
    remote_offer: &'a Option<SessionDescription>,
    channels: &'a Vec<(String, D)>,
) -> (plan: BuildPlan<'a, F, D>)
    ensures
        plans(plan, *config, *remote_offer, channels@),
{
    match remote_offer {
        Some(offer) => BuildPlan { config, is_offerer: false, steps: answerer_steps(offer) },
        None => BuildPlan { config, is_offerer: true, steps: offerer_steps(channels) },
    }
}

/// Gathers ICE candidates until the gathering has finished.
#[derive(Debug)]
pub struct CandidateCollector {
    candidates: Vec<ICECandidate>,
}

impl View for CandidateCollector {
    type V = Seq<ICECandidate>;

    closed spec fn view(&self) -> Seq<ICECandidate> {
        self.candidates@
    }
}

impl CandidateCollector {
    /// Nothing was gathered so far.
    pub fn new() -> (collector: Self)
        ensures
            collector@ == Seq::<ICECandidate>::empty(),
    {
        CandidateCollector { candidates: Vec::new() }
    }

    /// Take in a message: a candidate, or none where the gathering has finished. Says whether more
    /// is to come.
    pub fn receive(&mut self, message: Option<ICECandidate>) -> (more: bool)
        ensures
            more == (message is Some),
            final(self)@ == with_message(old(self)@, message),
    {
        match message {
            Some(candidate) => {
                self.candidates.push(candidate);
                true
            },
            None => false,
        }
    }

    /// The candidates that were gathered.
    pub fn finish(self) -> (candidates: Vec<ICECandidate>)
        ensures
            candidates@ == self@,
    {
        self.candidates
    }
}

/// What has been gathered once a message was taken in.
pub open spec fn with_message(
    before: Seq<ICECandidate>,
    message: Option<ICECandidate>,
) -> Seq<ICECandidate> {
    match message {
        Some(candidate) => before.push(candidate),
        None => before,
    }
}

/// What has been gathered once messages were taken in, one after the other.
pub open spec fn collected(
    before: Seq<ICECandidate>,
    messages: Seq<Option<ICECandidate>>,
) -> Seq<ICECandidate>
    decreases messages.len(),
{
    if messages.len() == 0 {
        before
    } else {
        with_message(collected(before, messages.drop_last()), messages.last())
    }
}

/// Every candidate is gathered, in the order in which they came.
pub proof fn every_candidate_is_collected(
    before: Seq<ICECandidate>,
    candidates: Seq<ICECandidate>,
)
    ensures
        collected(
            before,
            candidates.map_values(|candidate: ICECandidate| Some(candidate)).push(None),
        ) == before + candidates,
    decreases candidates.len(),
{
    reveal_with_fuel(collected, 3);
    let message = |candidate: ICECandidate| Some(candidate);
    let messages = candidates.map_values(message);
    assert(messages.push(None).drop_last() =~= messages);
    if candidates.len() == 0 {
        assert(before + candidates =~= before);
    } else {
        let rest = candidates.drop_last();
        every_candidate_is_collected(before, rest);
        assert(rest.map_values(message).push(None).drop_last() =~= rest.map_values(message));
        assert(messages.drop_last() =~= rest.map_values(message));
        assert((before + rest).push(candidates.last()) =~= before + candidates);
    }
}

/// Whether a peer connection is connected.
pub fn is_connected(state: PeerConnectionState) -> (connected: bool)
    ensures
        connected == (state == PeerConnectionState::Connected),
{
    match state {
        PeerConnectionState::Connected => true,
        _ => false,
    }
}

/// What happens to a data channel.
#[derive(Debug)]
pub enum ChannelEvent {
    /// The channel was opened.
    Open,
    /// The channel was closed.
    Close,
    /// A message came in, or one whose data cannot be read as bytes.
    Message(Option<Vec<u8>>),
    /// The platform reports an error.
    Error,
}

/// What a data channel does about an event.
#[derive(Debug)]
pub enum ChannelAction {
    /// Tell those who wait whether the channel is ready.
    SetReady(bool),
    /// Hand on the data of a message.
    Deliver(Vec<u8>),
    /// Nothing.
    Ignore,
}

} // verus!
