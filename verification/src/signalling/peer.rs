//! The state machine that takes a peer through signalling with every other peer.
//!
//! Work that takes time (listening for messages, running callbacks) is queued as a [`Task`]. What a
//! task comes back with is a [`SignallingState`], which [`RtcSignallingPeer::step`] handles. Tasks
//! may complete in any order.

use std::collections::BTreeSet;

use vstd::prelude::*;

use crate::signalling::client::ClientError;
use crate::signalling::client::ClientResult;
use crate::signalling::client::Request;
use crate::signalling::client::RtcSignallingClient;
use crate::signalling::codec::SignalPayload;
use crate::signalling::pb::AdvertiseReq;
use crate::signalling::pb::AdvertiseRsp;
use crate::signalling::pb::AnswerListenerReq;
use crate::signalling::pb::AnswerListenerRsp;
use crate::signalling::pb::Change;
use crate::signalling::pb::OfferListenerReq;
use crate::signalling::pb::OfferListenerRsp;
use crate::signalling::pb::PeerChange;
use crate::signalling::pb::PeerId;
use crate::signalling::pb::PeerListenerReq;
use crate::signalling::pb::PeerListenerRsp;
use crate::signalling::pb::SignalAnswerReq;
use crate::signalling::pb::SignalAnswerRsp;
use crate::signalling::pb::SignalOfferReq;
use crate::signalling::pb::SignalOfferRsp;
use crate::signalling::status::Status;

verus! {

broadcast use vstd::std_specs::btree::group_btree_axioms;

/// Set of description, candidates and a remote peer ID.
#[derive(Debug)]
pub struct SignalSet<D, C> {
    /// Session description.
    pub desc: D,
    /// ICE candidates.
    pub candidates: C,
    /// Remote peer ID.
    pub remote_id: u64,
}

/// Signalling state machine states: what a task came back with.
#[derive(Debug)]
pub enum SignallingState<A, O, C> {
    /// The set of peers has changed.
    PeerListener(Vec<PeerChange>),
    /// A remote peer made an offer.
    OfferListener(SignalSet<O, C>),
    /// A remote peer gave an answer.
    AnswerListener(SignalSet<A, C>),
    /// An offer was created for a remote peer.
    CreateOffer(SignalSet<O, C>),
    /// The answer of a remote peer was received.
    ReceiveAnswer(u64),
    /// The handler of a completed local signalling chain is done.
    LocalSigCplt(u64),
    /// The offer of a remote peer was received, and an answer created.
    ReceiveOffer(SignalSet<A, C>),
    /// The handler of a completed remote signalling chain is done.
    RemoteSigCplt(u64),
}

/// Work to be done, concurrently with other work.
#[derive(Debug)]
pub enum Task<A, O, C> {
    /// Wait for the next message of the peer listener.
    ListenPeers,
    /// Wait for the next message of the offer listener.
    ListenOffers,
    /// Wait for the next message of the answer listener.
    ListenAnswers,
    /// Call back to create an offer for a remote peer.
    CreateOffer(u64),
    /// Call back to receive an answer.
    ReceiveAnswer(SignalSet<A, C>),
    /// Call back on the completion of a local signalling chain.
    LocalSigCplt(u64),
    /// Call back to receive an offer and create an answer.
    ReceiveOffer(SignalSet<O, C>),
    /// Call back on the completion of a remote signalling chain.
    RemoteSigCplt(u64),
    /// Resolves at once, without a call back.
    Resolved(SignallingState<A, O, C>),
    /// Never resolves.
    Pending,
}

/// Which callbacks were set.
#[derive(Debug, Clone, Copy, PartialEq, Eq, Structural)]
pub struct Callbacks {
    pub create_offer: bool,
    pub receive_answer: bool,
    pub local_sig_cplt: bool,
    pub receive_offer: bool,
    pub remote_sig_cplt: bool,
}

impl Callbacks {
    /// No callback was set.
    pub open spec fn spec_none() -> Self {
        Callbacks {
            create_offer: false,
            receive_answer: false,
            local_sig_cplt: false,
            receive_offer: false,
            remote_sig_cplt: false,
        }
    }

    /// No callback was set.
    pub fn none() -> (callbacks: Self)
        ensures
            callbacks == Self::spec_none(),
    {
        Callbacks {
            create_offer: false,
            receive_answer: false,
            local_sig_cplt: false,
            receive_offer: false,
            remote_sig_cplt: false,
        }
    }
}

/// What the peer listener task makes of what came from the server.
pub fn peer_listener_task<A, O, C>(
    message: Result<Option<PeerListenerRsp>, Status>,
) -> (state: ClientResult<SignallingState<A, O, C>>)
    ensures
        match message {
            Ok(Some(rsp)) => state == Ok::<SignallingState<A, O, C>, ClientError>(
                SignallingState::PeerListener(rsp.peer_changes),
            ),
            Ok(None) => state == Err::<SignallingState<A, O, C>, ClientError>(
                ClientError::ListenerClosed,
            ),
            Err(status) => state == Err::<SignallingState<A, O, C>, ClientError>(
                ClientError::TonicStatus(status),
            ),
        },
{
    match message {
        Ok(Some(message)) => Ok(SignallingState::PeerListener(message.peer_changes)),
        Ok(None) => Err(ClientError::ListenerClosed),
        Err(status) => Err(ClientError::from(status)),
    }
}

/// What the offer listener task makes of what came from the server. A message without an offer
/// completes nothing: the task goes on listening.
pub fn offer_listener_task<A, O: SignalPayload, C: SignalPayload>(
    message: Result<Option<OfferListenerRsp>, Status>,
) -> (state: Option<ClientResult<SignallingState<A, O, C>>>)
    ensures
        match message {
            Ok(Some(OfferListenerRsp { offer_signal: Some(signal) })) => {
                &&& state is Some
                &&& match (O::decoding(signal.offer@), C::decoding(signal.candidates@)) {
                    (Some(desc), Some(candidates)) => {
                        &&& state->0 matches Ok(SignallingState::OfferListener(set))
                        &&& set.desc.model() == desc
                        &&& set.candidates.model() == candidates
                        &&& set.remote_id == signal.offerer_id
                    },
                    _ => state->0 matches Err(ClientError::Bincode(_)),
                }
            },
            Ok(Some(OfferListenerRsp { offer_signal: None })) => state is None,
            Ok(None) => state == Some(
                Err::<SignallingState<A, O, C>, ClientError>(ClientError::ListenerClosed),
            ),
            Err(status) => state == Some(
                Err::<SignallingState<A, O, C>, ClientError>(ClientError::TonicStatus(status)),
            ),
        },
{
    let message = match message {
        Ok(Some(message)) => message,
        Ok(None) => return Some(Err(ClientError::ListenerClosed)),
        Err(status) => return Some(Err(ClientError::from(status))),
    };
    let signal = match message.offer_signal {
        Some(signal) => signal,
        None => return None,
    };
    let desc = match O::decode(signal.offer) {
        Ok(desc) => desc,
        Err(error) => return Some(Err(ClientError::from(error))),
    };
    let candidates = match C::decode(signal.candidates) {
        Ok(candidates) => candidates,
        Err(error) => return Some(Err(ClientError::from(error))),
    };
    let offer_set = SignalSet { desc, candidates, remote_id: signal.offerer_id };
    Some(Ok(SignallingState::OfferListener(offer_set)))
}

/// What the answer listener task makes of what came from the server. A message without an answer
/// completes nothing: the task goes on listening.
pub fn answer_listener_task<A: SignalPayload, O, C: SignalPayload>(
    message: Result<Option<AnswerListenerRsp>, Status>,
) -> (state: Option<ClientResult<SignallingState<A, O, C>>>)
    ensures
        match message {
            Ok(Some(AnswerListenerRsp { answer_signal: Some(signal) })) => {
                &&& state is Some
                &&& match (A::decoding(signal.answer@), C::decoding(signal.candidates@)) {
                    (Some(desc), Some(candidates)) => {
                        &&& state->0 matches Ok(SignallingState::AnswerListener(set))
                        &&& set.desc.model() == desc
                        &&& set.candidates.model() == candidates
                        &&& set.remote_id == signal.answerer_id
                    },
                    _ => state->0 matches Err(ClientError::Bincode(_)),
                }
            },
            Ok(Some(AnswerListenerRsp { answer_signal: None })) => state is None,
            Ok(None) => state == Some(
                Err::<SignallingState<A, O, C>, ClientError>(ClientError::ListenerClosed),
            ),
            Err(status) => state == Some(
                Err::<SignallingState<A, O, C>, ClientError>(ClientError::TonicStatus(status)),
            ),
        },
{
    let message = match message {
        Ok(Some(message)) => message,
        Ok(None) => return Some(Err(ClientError::ListenerClosed)),
        Err(status) => return Some(Err(ClientError::from(status))),
    };
    let signal = match message.answer_signal {
        Some(signal) => signal,
        None => return None,
    };
    let desc = match A::decode(signal.answer) {
        Ok(desc) => desc,
        Err(error) => return Some(Err(ClientError::from(error))),
    };
    let candidates = match C::decode(signal.candidates) {
        Ok(candidates) => candidates,
        Err(error) => return Some(Err(ClientError::from(error))),
    };
    let answer_set = SignalSet { desc, candidates, remote_id: signal.answerer_id };
    Some(Ok(SignallingState::AnswerListener(answer_set)))
}

/// The peers that are known once a change has been applied.
pub open spec fn changed_by(peers: Set<u64>, change: PeerChange) -> Set<u64> {
    match crate::signalling::pb::change_of(change.change) {
        Change::PeerChangeAdd => peers.insert(change.id),
        Change::PeerChangeRemove => peers.remove(change.id),
    }
}

/// The peers that are known once changes have been applied, one after the other.
pub open spec fn discovered_after(peers: Set<u64>, changes: Seq<PeerChange>) -> Set<u64> {
    changes.fold_left(peers, |known: Set<u64>, change: PeerChange| changed_by(known, change))
}

/// Whether a change adds a peer.
pub open spec fn is_addition(change: PeerChange) -> bool {
    crate::signalling::pb::change_of(change.change) is PeerChangeAdd
}

/// The peers that changes add, in the order of the changes.
pub open spec fn added_ids(changes: Seq<PeerChange>) -> Seq<u64> {
    changes.filter(|change: PeerChange| is_addition(change)).map_values(
        |change: PeerChange| change.id,
    )
}

/// What a peer knows and has queued.
#[verifier::reject_recursive_types(A)]
#[verifier::reject_recursive_types(O)]
#[verifier::reject_recursive_types(C)]
#[verifier::ext_equal]
pub struct PeerView<A, O, C> {
    pub client: crate::signalling::client::ClientView,
    pub local_id: u64,
    /// The peers that are known.
    pub discovered_peers: Set<u64>,
    /// Whether nothing was heard of other peers so far.
    pub first_discovery: bool,
    pub callbacks: Callbacks,
    /// The tasks that are yet to be started, in the order in which they were queued.
    pub queued: Seq<Task<A, O, C>>,
}

impl<A, O, C> PeerView<A, O, C> {
    /// A peer that has just started: it knows of no other, has no callbacks, and is about to listen
    /// for peers, for offers and for answers.
    pub open spec fn started(client: crate::signalling::client::ClientView, local_id: u64) -> Self {
        PeerView {
            client,
            local_id,
            discovered_peers: Set::empty(),
            first_discovery: true,
            callbacks: Callbacks::spec_none(),
            queued: seq![Task::ListenPeers, Task::ListenOffers, Task::ListenAnswers],
        }
    }

    /// The task that creates an offer. Without a callback it never resolves.
    pub open spec fn create_offer_task(self, remote_id: u64) -> Task<A, O, C> {
        if self.callbacks.create_offer {
            Task::CreateOffer(remote_id)
        } else {
            Task::Pending
        }
    }

    /// The task that receives an answer. Without a callback it resolves at once.
    pub open spec fn receive_answer_task(self, answer: SignalSet<A, C>) -> Task<A, O, C> {
        if self.callbacks.receive_answer {
            Task::ReceiveAnswer(answer)
        } else {
            Task::Resolved(SignallingState::ReceiveAnswer(answer.remote_id))
        }
    }

    /// The task that handles the completion of a local signalling chain. Without a callback it
    /// resolves at once.
    pub open spec fn local_sig_cplt_task(self, remote_id: u64) -> Task<A, O, C> {
        if self.callbacks.local_sig_cplt {
            Task::LocalSigCplt(remote_id)
        } else {
            Task::Resolved(SignallingState::LocalSigCplt(remote_id))
        }
    }

    /// The task that receives an offer. Without a callback it never resolves.
    pub open spec fn receive_offer_task(self, offer: SignalSet<O, C>) -> Task<A, O, C> {
        if self.callbacks.receive_offer {
            Task::ReceiveOffer(offer)
        } else {
            Task::Pending
        }
    }

    /// The task that handles the completion of a remote signalling chain. Without a callback it
    /// resolves at once.
    pub open spec fn remote_sig_cplt_task(self, remote_id: u64) -> Task<A, O, C> {
        if self.callbacks.remote_sig_cplt {
            Task::RemoteSigCplt(remote_id)
        } else {
            Task::Resolved(SignallingState::RemoteSigCplt(remote_id))
        }
    }

    /// More tasks have been queued.
    pub open spec fn queueing(self, tasks: Seq<Task<A, O, C>>) -> Self {
        PeerView { queued: self.queued + tasks, ..self }
    }

    /// The peer listener has heard of changes. The first time, an offer is created for each peer
    /// that they add.
    pub open spec fn peers_changed(self, changes: Seq<PeerChange>) -> Self {
        PeerView {
            discovered_peers: discovered_after(self.discovered_peers, changes),
            first_discovery: false,
            ..self.queueing(
                seq![Task::ListenPeers] + if self.first_discovery {
                    added_ids(changes).map_values(|id: u64| self.create_offer_task(id))
                } else {
                    Seq::empty()
                },
            )
        }
    }

    /// A task has come back with a state. A state that is to be signalled changes nothing here.
    pub open spec fn stepped(self, state: SignallingState<A, O, C>) -> Self {
        match state {
            SignallingState::PeerListener(changes) => self.peers_changed(changes@),
            SignallingState::CreateOffer(_) => self,
            SignallingState::AnswerListener(answer) => self.queueing(
                seq![Task::ListenAnswers, self.receive_answer_task(answer)],
            ),
            SignallingState::ReceiveAnswer(remote_id) => self.queueing(
                seq![self.local_sig_cplt_task(remote_id)],
            ),
            SignallingState::LocalSigCplt(_) => self,
            SignallingState::OfferListener(offer) => self.queueing(
                seq![Task::ListenOffers, self.receive_offer_task(offer)],
            ),
            SignallingState::ReceiveOffer(_) => self,
            SignallingState::RemoteSigCplt(_) => self,
        }
    }
}

/// What is to be sent to the server after a step.
#[derive(Debug)]
pub enum StepAction {
    /// Nothing.
    Done,
    /// An offer for a remote peer; what comes back goes to [`RtcSignallingPeer::offer_signalled`].
    SignalOffer(u64, Request<SignalOfferReq>),
    /// An answer for a remote peer; what comes back goes to
    /// [`RtcSignallingPeer::answer_signalled`].
    SignalAnswer(u64, Request<SignalAnswerReq>),
}

/// A signalling peer.
#[derive(Debug)]
#[verifier::reject_recursive_types(A)]
#[verifier::reject_recursive_types(O)]
#[verifier::reject_recursive_types(C)]
pub struct RtcSignallingPeer<A, O, C> {
    client: RtcSignallingClient,
    local_id: u64,
    discovered_peers: BTreeSet<u64>,
    first_discovery: bool,
    callbacks: Callbacks,
    queued: Vec<Task<A, O, C>>,
}

impl<A, O, C> View for RtcSignallingPeer<A, O, C> {
    type V = PeerView<A, O, C>;

    closed spec fn view(&self) -> PeerView<A, O, C> {
        PeerView {
            client: self.client@,
            local_id: self.local_id,
            discovered_peers: self.discovered_peers@,
            first_discovery: self.first_discovery,
            callbacks: self.callbacks,
            queued: self.queued@,
        }
    }
}

impl<A, O, C> RtcSignallingPeer<A, O, C> {
    /// A peer that knows of no other, and is about to listen for peers, offers and answers.
    pub fn new(client: RtcSignallingClient, local_id: u64) -> (peer: Self)
        ensures
            peer@ == PeerView::<A, O, C>::started(client@, local_id),
    {
        // queue initial listener tasks
        let queued = vec![Task::ListenPeers, Task::ListenOffers, Task::ListenAnswers];
        let peer = RtcSignallingPeer {
            client,
            local_id,
            discovered_peers: BTreeSet::new(),
            first_discovery: true,
            callbacks: Callbacks::none(),
            queued,
        };
        assert(peer@.queued =~= seq![Task::ListenPeers, Task::ListenOffers, Task::ListenAnswers]);
        peer
    }

    /// The id of this peer.
    pub fn local_id(&self) -> (id: u64)
        ensures
            id == self@.local_id,
    {
        self.local_id
    }

    /// The peers that are known.
    pub fn discovered_peers(&self) -> (peers: &BTreeSet<u64>)
        ensures
            peers@ == self@.discovered_peers,
    {
        &self.discovered_peers
    }

    /// Creation of offer signals is called back from now on.
    ///
    /// Default: never resolves, callback must be set for functional client!
    pub fn set_on_create_offer(&mut self) -> (peer: &mut Self)
        ensures
            peer@ == (PeerView {
                callbacks: Callbacks { create_offer: true, ..old(self)@.callbacks },
                ..old(self)@
            }),
            *final(self) == *final(peer),
    {
        self.callbacks.create_offer = true;
        self
    }

    /// Receiving of answer signals is called back from now on.
    ///
    /// Default: immediately resolves.
    pub fn set_on_receive_answer(&mut self) -> (peer: &mut Self)
        ensures
            peer@ == (PeerView {
                callbacks: Callbacks { receive_answer: true, ..old(self)@.callbacks },
                ..old(self)@
            }),
            *final(self) == *final(peer),
    {
        self.callbacks.receive_answer = true;
        self
    }

    /// Completion of a local (offerer) signalling chain is called back from now on.
    ///
    /// Default: immediately resolves.
    pub fn set_on_local_sig_cplt(&mut self) -> (peer: &mut Self)
        ensures
            peer@ == (PeerView {
                callbacks: Callbacks { local_sig_cplt: true, ..old(self)@.callbacks },
                ..old(self)@
            }),
            *final(self) == *final(peer),
    {
        self.callbacks.local_sig_cplt = true;
        self
    }

    /// Receiving of offer signals is called back from now on.
    ///
    /// Default: never resolves, callback must be set for functional client!
    pub fn set_on_receive_offer(&mut self) -> (peer: &mut Self)
        ensures
            peer@ == (PeerView {
                callbacks: Callbacks { receive_offer: true, ..old(self)@.callbacks },
                ..old(self)@
            }),
            *final(self) == *final(peer),
    {
        self.callbacks.receive_offer = true;
        self
    }

    /// Completion of a remote (answerer) signalling chain is called back from now on.
    ///
    /// Default: immediately resolves.
    pub fn set_on_remote_sig_cplt(&mut self) -> (peer: &mut Self)
        ensures
            peer@ == (PeerView {
                callbacks: Callbacks { remote_sig_cplt: true, ..old(self)@.callbacks },
                ..old(self)@
            }),
            *final(self) == *final(peer),
    {
        self.callbacks.remote_sig_cplt = true;
        self
    }

    /// Hand over the tasks that are yet to be started.
    pub fn take_queued(&mut self) -> (tasks: Vec<Task<A, O, C>>)
        ensures
            tasks@ == old(self)@.queued,
            final(self)@ == (PeerView { queued: Seq::empty(), ..old(self)@ }),
    {
        let mut tasks: Vec<Task<A, O, C>> = Vec::new();
        core::mem::swap(&mut tasks, &mut self.queued);
        tasks
    }

    /// Close the peer: the tasks that are yet to be started are dropped.
    pub fn close(&mut self) -> (outcome: ClientResult<()>)
        ensures
            outcome == Ok::<(), ClientError>(()),
            final(self)@ == (PeerView { queued: Seq::empty(), ..old(self)@ }),
    {
        let _ = self.take_queued();
        Ok(())
    }

    /// Apply changes to the peers that are known.
    fn apply_changes(&mut self, changes: &Vec<PeerChange>)
        ensures
            final(self)@ == (PeerView {
                discovered_peers: discovered_after(old(self)@.discovered_peers, changes@),
                ..old(self)@
            }),
    {
        let ghost before = self@;
        for i in 0..changes.len()
            invariant
                self@ == (PeerView {
                    discovered_peers: discovered_after(
                        before.discovered_peers,
                        changes@.take(i as int),
                    ),
                    ..before
                }),
        {
            let peer_change = changes[i];
            proof {
                let taken = changes@.take(i + 1);
                assert(taken.drop_last() =~= changes@.take(i as int));
                assert(taken.last() == peer_change);
                reveal_with_fuel(Seq::fold_left, 2);
            }
            match peer_change.change() {
                Change::PeerChangeAdd => {
                    self.discovered_peers.insert(peer_change.id);
                },
                Change::PeerChangeRemove => {
                    self.discovered_peers.remove(&peer_change.id);
                },
            }
        }
        assert(changes@.take(changes@.len() as int) =~= changes@);
    }

    /// Queue creation of an offer for each peer that changes add.
    fn queue_offers(&mut self, changes: &Vec<PeerChange>)
        ensures
            final(self)@ == old(self)@.queueing(
                added_ids(changes@).map_values(|id: u64| old(self)@.create_offer_task(id)),
            ),
    {
        let ghost before = self@;
        let ghost task = |id: u64| before.create_offer_task(id);
        assert(before.queued + Seq::<Task<A, O, C>>::empty() =~= before.queued);
        assert(added_ids(changes@.take(0)) =~= Seq::empty()) by {
            reveal(Seq::filter);
        }
        for i in 0..changes.len()
            invariant
                task == (|id: u64| before.create_offer_task(id)),
                self@ == before.queueing(
                    added_ids(changes@.take(i as int)).map_values(task),
                ),
        {
            let peer_change = changes[i];
            let ghost queued = self@.queued;
            proof {
                let taken = changes@.take(i + 1);
                assert(taken.drop_last() =~= changes@.take(i as int));
                assert(taken.last() == peer_change);
                reveal(Seq::filter);
                if is_addition(peer_change) {
                    assert(added_ids(taken) =~= added_ids(changes@.take(i as int)).push(
                        peer_change.id,
                    ));
                    assert(added_ids(taken).map_values(task) =~= added_ids(
                        changes@.take(i as int),
                    ).map_values(task).push(before.create_offer_task(peer_change.id)));
                } else {
                    assert(added_ids(taken) =~= added_ids(changes@.take(i as int)));
                }
            }
            match peer_change.change() {
                Change::PeerChangeAdd => {
                    if self.callbacks.create_offer {
                        self.queued.push(Task::CreateOffer(peer_change.id));
                    } else {
                        self.queued.push(Task::Pending);
                    }
                    assert(self@.queued =~= queued.push(before.create_offer_task(peer_change.id)));
                },
                Change::PeerChangeRemove => {},
            }
            assert(self@.queued =~= before.queued + added_ids(
                changes@.take(i + 1),
            ).map_values(task));
        }
        assert(changes@.take(changes@.len() as int) =~= changes@);
    }
}

impl<A: SignalPayload, O: SignalPayload, C: SignalPayload> RtcSignallingPeer<A, O, C> {
    /// Step the signalling concurrent state machine for a peer: handle what a task came back with,
    /// and queue new tasks. An error is passed on, and changes nothing.
    pub fn step(&mut self, completion: ClientResult<SignallingState<A, O, C>>) -> (action:
        ClientResult<StepAction>)
        ensures
            match completion {
                Err(error) => {
                    &&& action == Err::<StepAction, ClientError>(error)
                    &&& final(self)@ == old(self)@
                },
                Ok(state) => {
                    &&& final(self)@ == old(self)@.stepped(state)
                    &&& match state {
                        SignallingState::CreateOffer(set) => match (
                            C::encoding(set.candidates.model()),
                            O::encoding(set.desc.model()),
                        ) {
                            (Some(candidates), Some(offer)) => {
                                &&& action matches Ok(StepAction::SignalOffer(remote_id, request))
                                &&& remote_id == set.remote_id
                                &&& request.grpc_timeout@ == old(self)@.client.grpc_timeout
                                &&& crate::signalling::client::carries_offer(
                                    request.message,
                                    old(self)@.local_id,
                                    set.remote_id,
                                    offer,
                                    candidates,
                                )
                            },
                            _ => action matches Err(ClientError::Bincode(_)),
                        },
                        SignallingState::ReceiveOffer(set) => match (
                            C::encoding(set.candidates.model()),
                            A::encoding(set.desc.model()),
                        ) {
                            (Some(candidates), Some(answer)) => {
                                &&& action matches Ok(StepAction::SignalAnswer(remote_id, request))
                                &&& remote_id == set.remote_id
                                &&& request.grpc_timeout@ == old(self)@.client.grpc_timeout
                                &&& crate::signalling::client::carries_answer(
                                    request.message,
                                    old(self)@.local_id,
                                    set.remote_id,
                                    answer,
                                    candidates,
                                )
                            },
                            _ => action matches Err(ClientError::Bincode(_)),
                        },
                        _ => action == Ok::<StepAction, ClientError>(StepAction::Done),
                    }
                },
            },
    {
        let state_cplt = match completion {
            Ok(state) => state,
            Err(error) => return Err(error),
        };
        let ghost before = self@;
        // match the state, handle, and queue new states
        match state_cplt {
            // Start of "local" signalling chain
            // PeerListener receives a list of remote peers.
            // On first iteration, for each remote peer, create a local peer connection...
            SignallingState::PeerListener(peer_changes) => {
                // reset peer listener
                self.queued.push(Task::ListenPeers);
                assert(self@.queued =~= before.queued + seq![Task::ListenPeers]);
                // apply peer changes to discovered peers
                self.apply_changes(&peer_changes);
                // if this is the first discovery
                // queue creation of offers for each remote peer (creates local peer connections)
                let ghost task = |id: u64| before.create_offer_task(id);
                if self.first_discovery {
                    self.first_discovery = false;
                    let ghost discovered = self@;
                    assert((|id: u64| discovered.create_offer_task(id)) =~= task);
                    self.queue_offers(&peer_changes);
                }
                assert(self@ =~= before.peers_changed(peer_changes@));
                Ok(StepAction::Done)
            },
            // Local peer connections generate offers...
            // Offers are signalled to the remote peers...
            SignallingState::CreateOffer(offer_set) => {
                let remote_id: u64 = offer_set.remote_id;
                match self.client.signal_offer(
                    self.local_id,
                    remote_id,
                    offer_set.desc,
                    offer_set.candidates,
                ) {
                    Ok(request) => Ok(StepAction::SignalOffer(remote_id, request)),
                    Err(error) => Err(error),
                }
            },
            // Listen for answers from the remote peers...
            SignallingState::AnswerListener(answer_set) => {
                // requeue answer listener
                self.queued.push(Task::ListenAnswers);
                // queue receive answer
                if self.callbacks.receive_answer {
                    self.queued.push(Task::ReceiveAnswer(answer_set));
                } else {
                    self.queued.push(
                        Task::Resolved(SignallingState::ReceiveAnswer(answer_set.remote_id)),
                    );
                }
                assert(self@.queued =~= before.queued + seq![
                    Task::ListenAnswers,
                    before.receive_answer_task(answer_set),
                ]);
                Ok(StepAction::Done)
            },
            // We wait to receive answer responses from the remote peers,
            // Completing a "local" signalling chain.
            // And starting a local signalling chain complete handler.
            SignallingState::ReceiveAnswer(remote_id) => {
                if self.callbacks.local_sig_cplt {
                    self.queued.push(Task::LocalSigCplt(remote_id));
                } else {
                    self.queued.push(Task::Resolved(SignallingState::LocalSigCplt(remote_id)));
                }
                assert(self@.queued =~= before.queued + seq![
                    before.local_sig_cplt_task(remote_id),
                ]);
                Ok(StepAction::Done)
            },
            // Finally, the local signalling chain complete hander exits
            SignallingState::LocalSigCplt(_remote_id) => Ok(StepAction::Done),
            // Start of a "remote" signalling chain
            // OfferListener receives a remote offer.
            SignallingState::OfferListener(offer_set) => {
                // requeue offer listener
                self.queued.push(Task::ListenOffers);
                // queue receive offer
                if self.callbacks.receive_offer {
                    self.queued.push(Task::ReceiveOffer(offer_set));
                } else {
                    self.queued.push(Task::Pending);
                }
                assert(self@.queued =~= before.queued + seq![
                    Task::ListenOffers,
                    before.receive_offer_task(offer_set),
                ]);
                Ok(StepAction::Done)
            },
            // This offer is used to create a remote peer connection and generate an answer...
            // The answer is sent to the remote offerer
            SignallingState::ReceiveOffer(answer_set) => {
                let remote_id: u64 = answer_set.remote_id;
                match self.client.signal_answer(
                    self.local_id,
                    remote_id,
                    answer_set.desc,
                    answer_set.candidates,
                ) {
                    Ok(request) => Ok(StepAction::SignalAnswer(remote_id, request)),
                    Err(error) => Err(error),
                }
            },
            // Finally, the remote signalling chain complete handler exits
            SignallingState::RemoteSigCplt(_remote_id) => Ok(StepAction::Done),
        }
    }

    /// The server has replied to an offer. Nothing follows: the local signalling chain goes on when
    /// the answer listener receives an answer.
    pub fn offer_signalled(&mut self, _remote_id: u64, reply: Result<SignalOfferRsp, Status>) -> (
    outcome: ClientResult<()>)
        ensures
            final(self)@ == old(self)@,
            match reply {
                Ok(_) => outcome == Ok::<(), ClientError>(()),
                Err(status) => outcome == Err::<(), ClientError>(ClientError::TonicStatus(status)),
            },
    {
        match reply {
            Ok(_response) => Ok(()),
            Err(status) => Err(ClientError::from(status)),
        }
    }

    /// The server has replied to an answer. This completes a remote signalling chain, and starts a
    /// remote signalling chain complete handler.
    pub fn answer_signalled(&mut self, remote_id: u64, reply: Result<SignalAnswerRsp, Status>) -> (
    outcome: ClientResult<()>)
        ensures
            match reply {
                Ok(_) => {
                    &&& outcome == Ok::<(), ClientError>(())
                    &&& final(self)@ == old(self)@.queueing(
                        seq![old(self)@.remote_sig_cplt_task(remote_id)],
                    )
                },
                Err(status) => {
                    &&& outcome == Err::<(), ClientError>(ClientError::TonicStatus(status))
                    &&& final(self)@ == old(self)@
                },
            },
    {
        match reply {
            Ok(_response) => {
                let ghost before = self@;
                // queue remote signalling complete handler
                if self.callbacks.remote_sig_cplt {
                    self.queued.push(Task::RemoteSigCplt(remote_id));
                } else {
                    self.queued.push(Task::Resolved(SignallingState::RemoteSigCplt(remote_id)));
                }
                assert(self@.queued =~= before.queued + seq![
                    before.remote_sig_cplt_task(remote_id),
                ]);
                Ok(())
            },
            Err(status) => Err(ClientError::from(status)),
        }
    }
}

/// A request for one of the listeners of a peer, with the id of the peer.
#[derive(Debug)]
pub enum ListenerRequest {
    /// Ask to be told of changes to the set of peers.
    Peers(u64, Request<PeerListenerReq>),
    /// Ask to be told of offers.
    Offers(u64, Request<OfferListenerReq>),
    /// Ask to be told of answers.
    Answers(u64, Request<AnswerListenerReq>),
}

/// How far starting a peer has come.
#[derive(Debug)]
#[verifier::reject_recursive_types(A)]
#[verifier::reject_recursive_types(O)]
#[verifier::reject_recursive_types(C)]
pub enum Starting<A, O, C> {
    /// A listener is to be opened.
    OpenListener(ListenerRequest),
    /// The peer has an identity and its three listeners.
    Started(RtcSignallingPeer<A, O, C>),
}

impl RtcSignallingClient {
    /// Start a new signalling peer: the first request asks for an identity.
    pub fn start_peer(&self) -> (request: Request<AdvertiseReq>)
        ensures
            request.grpc_timeout@ == self@.grpc_timeout,
    {
        self.advertise()
    }

    /// Go on starting a peer, once the server has assigned an identity: the peer asks to be told of
    /// changes to the set of peers. A refusal is passed on.
    pub fn peer_advertised(&self, reply: Result<AdvertiseRsp, Status>) -> (request: ClientResult<
        ListenerRequest,
    >)
        requires
            reply matches Ok(response) ==> response.local_peer is Some,
        ensures
            match reply {
                Err(status) => request == Err::<ListenerRequest, ClientError>(
                    ClientError::TonicStatus(status),
                ),
                Ok(response) => {
                    &&& request matches Ok(ListenerRequest::Peers(local_id, next))
                    &&& local_id == response.local_peer->0.id
                    &&& next.message.local_peer == response.local_peer
                    &&& next.grpc_timeout@ == self@.grpc_timeout
                },
            },
    {
        match reply {
            Ok(response) => {
                let id: u64 = RtcSignallingClient::advertised(response);
                Ok(ListenerRequest::Peers(id, self.open_peer_listener(id)))
            },
            Err(status) => Err(ClientError::from(status)),
        }
    }

    /// Go on starting a peer, after the server has replied to the request for a listener: the
    /// listener for peers is followed by that for offers, and that by the one for answers. A
    /// refusal is passed on.
    pub fn listener_opened<A, O, C>(
        &self,
        request: ListenerRequest,
        reply: Result<(), Status>,
    ) -> (starting: ClientResult<Starting<A, O, C>>)
        ensures
            match (reply, request) {
                (Err(status), _) => starting == Err::<Starting<A, O, C>, ClientError>(
                    ClientError::TonicStatus(status),
                ),
                (Ok(()), ListenerRequest::Peers(id, _)) => {
                    &&& starting matches Ok(
                        Starting::OpenListener(ListenerRequest::Offers(local_id, next)),
                    )
                    &&& local_id == id
                    &&& next.message.local_peer == Some(PeerId { id })
                    &&& next.grpc_timeout@ == self@.grpc_timeout
                },
                (Ok(()), ListenerRequest::Offers(id, _)) => {
                    &&& starting matches Ok(
                        Starting::OpenListener(ListenerRequest::Answers(local_id, next)),
                    )
                    &&& local_id == id
                    &&& next.message.local_peer == Some(PeerId { id })
                    &&& next.grpc_timeout@ == self@.grpc_timeout
                },
                (Ok(()), ListenerRequest::Answers(id, _)) => {
                    &&& starting matches Ok(Starting::Started(peer))
                    &&& peer@ == PeerView::<A, O, C>::started(self@, id)
                },
            },
    {
        match reply {
            Ok(()) => {},
            Err(status) => return Err(ClientError::from(status)),
        }
        match request {
            ListenerRequest::Peers(id, _) => Ok(
                Starting::OpenListener(ListenerRequest::Offers(id, self.open_offer_listener(id))),
            ),
            ListenerRequest::Offers(id, _) => Ok(
                Starting::OpenListener(ListenerRequest::Answers(id, self.open_answer_listener(id))),
            ),
            ListenerRequest::Answers(id, _) => Ok(
                Starting::Started(RtcSignallingPeer::new(self.duplicate(), id)),
            ),
        }
    }
}

} // verus!
