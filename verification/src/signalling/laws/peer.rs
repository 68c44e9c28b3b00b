//! What holds of a peer on its way through signalling.

use std::collections::BTreeSet;

use vstd::prelude::*;

use crate::signalling::client::ClientError;
use crate::signalling::client::ClientResult;
use crate::signalling::client::Request;
use crate::signalling::client::RtcSignallingClient;
use crate::signalling::codec::SignalPayload;
use crate::signalling::laws::after_peer_event;
use crate::signalling::laws::PeerEvent;
use crate::signalling::pb::AdvertiseReq;
use crate::signalling::pb::AdvertiseRsp;
use crate::signalling::pb::AnswerListenerRsp;
use crate::signalling::pb::OfferListenerRsp;
use crate::signalling::pb::PeerChange;
use crate::signalling::pb::PeerId;
use crate::signalling::pb::PeerListenerRsp;
use crate::signalling::pb::SignalAnswerRsp;
use crate::signalling::pb::SignalOfferRsp;
use crate::signalling::peer::added_ids;
use crate::signalling::peer::answer_listener_task;
use crate::signalling::peer::changed_by;
use crate::signalling::peer::discovered_after;
use crate::signalling::peer::is_addition;
use crate::signalling::peer::offer_listener_task;
use crate::signalling::peer::peer_listener_task;
use crate::signalling::peer::Callbacks;
use crate::signalling::peer::ListenerRequest;
use crate::signalling::peer::PeerView;
use crate::signalling::peer::RtcSignallingPeer;
use crate::signalling::peer::SignalSet;
use crate::signalling::peer::SignallingState;
use crate::signalling::peer::Starting;
use crate::signalling::peer::StepAction;
use crate::signalling::peer::Task;
use crate::signalling::status::Status;

verus! {

/// Every answer is handed to the callback that receives answers, where that was set, whatever else
/// was set: the description, the candidates and the remote peer. Where it was not, the answer counts
/// as received. The peer listens on for answers, and nothing else changes.
pub proof fn answers_are_handed_to_their_callback<A: SignalPayload, O: SignalPayload, C: SignalPayload>(
    peer: &mut RtcSignallingPeer<A, O, C>,
    answer: SignalSet<A, C>,
    action: ClientResult<StepAction>,
)
    requires
        call_ensures(
            RtcSignallingPeer::<A, O, C>::step,
            (peer, Ok::<SignallingState<A, O, C>, ClientError>(SignallingState::AnswerListener(answer))),
            action,
        ),
    ensures
        action == Ok::<StepAction, ClientError>(StepAction::Done),
        final(peer)@.queued.take(old(peer)@.queued.len() as int) == old(peer)@.queued,
        final(peer)@.queued.len() == old(peer)@.queued.len() + 2,
        final(peer)@.queued[old(peer)@.queued.len() as int] is ListenAnswers,
        old(peer)@.callbacks.receive_answer ==> final(peer)@.queued.last()
            == Task::<A, O, C>::ReceiveAnswer(answer),
        !old(peer)@.callbacks.receive_answer ==> final(peer)@.queued.last()
            == Task::<A, O, C>::Resolved(SignallingState::ReceiveAnswer(answer.remote_id)),
        final(peer)@.client == old(peer)@.client,
        final(peer)@.local_id == old(peer)@.local_id,
        final(peer)@.discovered_peers == old(peer)@.discovered_peers,
        final(peer)@.first_discovery == old(peer)@.first_discovery,
        final(peer)@.callbacks == old(peer)@.callbacks,
{
    let before = old(peer)@.queued;
    let after = final(peer)@.queued;
    assert(after.take(before.len() as int) =~= before);
}

/// Every offer is handed to the callback that receives offers, where that was set, whatever else was
/// set: the description, the candidates and the remote peer. Where it was not, the offer is never
/// answered. The peer listens on for offers, and nothing else changes.
pub proof fn offers_are_handed_to_their_callback<A: SignalPayload, O: SignalPayload, C: SignalPayload>(
    peer: &mut RtcSignallingPeer<A, O, C>,
    offer: SignalSet<O, C>,
    action: ClientResult<StepAction>,
)
    requires
        call_ensures(
            RtcSignallingPeer::<A, O, C>::step,
            (peer, Ok::<SignallingState<A, O, C>, ClientError>(SignallingState::OfferListener(offer))),
            action,
        ),
    ensures
        action == Ok::<StepAction, ClientError>(StepAction::Done),
        final(peer)@.queued.take(old(peer)@.queued.len() as int) == old(peer)@.queued,
        final(peer)@.queued.len() == old(peer)@.queued.len() + 2,
        final(peer)@.queued[old(peer)@.queued.len() as int] is ListenOffers,
        old(peer)@.callbacks.receive_offer ==> final(peer)@.queued.last()
            == Task::<A, O, C>::ReceiveOffer(offer),
        !old(peer)@.callbacks.receive_offer ==> final(peer)@.queued.last() is Pending,
        final(peer)@.client == old(peer)@.client,
        final(peer)@.local_id == old(peer)@.local_id,
        final(peer)@.discovered_peers == old(peer)@.discovered_peers,
        final(peer)@.first_discovery == old(peer)@.first_discovery,
        final(peer)@.callbacks == old(peer)@.callbacks,
{
    let before = old(peer)@.queued;
    let after = final(peer)@.queued;
    assert(after.take(before.len() as int) =~= before);
}

/// Once an answer was received, the callback for completed local chains is told of its peer, where
/// that was set, whatever else was set. Where it was not, the chain counts as handled. Nothing else
/// changes.
pub proof fn received_answers_complete_the_local_chain<A: SignalPayload, O: SignalPayload, C: SignalPayload>(
    peer: &mut RtcSignallingPeer<A, O, C>,
    remote_id: u64,
    action: ClientResult<StepAction>,
)
    requires
        call_ensures(
            RtcSignallingPeer::<A, O, C>::step,
            (peer, Ok::<SignallingState<A, O, C>, ClientError>(SignallingState::ReceiveAnswer(remote_id))),
            action,
        ),
    ensures
        action == Ok::<StepAction, ClientError>(StepAction::Done),
        final(peer)@.queued.take(old(peer)@.queued.len() as int) == old(peer)@.queued,
        final(peer)@.queued.len() == old(peer)@.queued.len() + 1,
        old(peer)@.callbacks.local_sig_cplt ==> final(peer)@.queued.last()
            == Task::<A, O, C>::LocalSigCplt(remote_id),
        !old(peer)@.callbacks.local_sig_cplt ==> final(peer)@.queued.last()
            == Task::<A, O, C>::Resolved(SignallingState::LocalSigCplt(remote_id)),
        final(peer)@.client == old(peer)@.client,
        final(peer)@.local_id == old(peer)@.local_id,
        final(peer)@.discovered_peers == old(peer)@.discovered_peers,
        final(peer)@.first_discovery == old(peer)@.first_discovery,
        final(peer)@.callbacks == old(peer)@.callbacks,
{
    let before = old(peer)@.queued;
    let after = final(peer)@.queued;
    assert(after.take(before.len() as int) =~= before);
}

/// A chain that was handled ends there: nothing changes, and nothing is sent.
pub proof fn handled_chains_end<A: SignalPayload, O: SignalPayload, C: SignalPayload>(
    peer: &mut RtcSignallingPeer<A, O, C>,
    state: SignallingState<A, O, C>,
    action: ClientResult<StepAction>,
)
    requires
        call_ensures(
            RtcSignallingPeer::<A, O, C>::step,
            (peer, Ok::<SignallingState<A, O, C>, ClientError>(state)),
            action,
        ),
    ensures
        state is LocalSigCplt || state is RemoteSigCplt ==> {
            &&& action == Ok::<StepAction, ClientError>(StepAction::Done)
            &&& final(peer)@.queued == old(peer)@.queued
            &&& final(peer)@.discovered_peers == old(peer)@.discovered_peers
            &&& final(peer)@.first_discovery == old(peer)@.first_discovery
        },
        final(peer)@.client == old(peer)@.client,
        final(peer)@.local_id == old(peer)@.local_id,
        final(peer)@.callbacks == old(peer)@.callbacks,
{
}

/// An offer that was created is sent to the peer that it was created for, in the name of this peer,
/// so that what was created can be read back, and with the deadline of the client. It is an error
/// where it cannot be carried, and there alone. Nothing else changes.
pub proof fn created_offers_are_sent<A: SignalPayload, O: SignalPayload, C: SignalPayload>(
    peer: &mut RtcSignallingPeer<A, O, C>,
    set: SignalSet<O, C>,
    action: ClientResult<StepAction>,
)
    requires
        call_ensures(
            RtcSignallingPeer::<A, O, C>::step,
            (peer, Ok::<SignallingState<A, O, C>, ClientError>(SignallingState::CreateOffer(set))),
            action,
        ),
    ensures
        action is Ok <==> O::encoding(set.desc.model()) is Some && C::encoding(
            set.candidates.model(),
        ) is Some,
        action matches Err(error) ==> error is Bincode,
        action matches Ok(done) ==> {
            &&& done matches StepAction::SignalOffer(remote_id, request)
            &&& remote_id == set.remote_id
            &&& request.grpc_timeout@ == old(peer)@.client.grpc_timeout
            &&& request.message.answerer_peer == Some(PeerId { id: set.remote_id })
            &&& request.message.offer_signal is Some
            &&& request.message.offer_signal->0.offerer_id == old(peer)@.local_id
            &&& O::decoding(request.message.offer_signal->0.offer@) == Some(set.desc.model())
            &&& C::decoding(request.message.offer_signal->0.candidates@) == Some(
                set.candidates.model(),
            )
        },
        final(peer)@.queued == old(peer)@.queued,
        final(peer)@.client == old(peer)@.client,
        final(peer)@.local_id == old(peer)@.local_id,
        final(peer)@.discovered_peers == old(peer)@.discovered_peers,
        final(peer)@.first_discovery == old(peer)@.first_discovery,
        final(peer)@.callbacks == old(peer)@.callbacks,
{
    O::decoding_inverts_encoding(set.desc.model());
    C::decoding_inverts_encoding(set.candidates.model());
}

/// An answer that was created is sent to the peer that it was created for, in the name of this peer,
/// so that what was created can be read back, and with the deadline of the client. It is an error
/// where it cannot be carried, and there alone. Nothing else changes.
pub proof fn created_answers_are_sent<A: SignalPayload, O: SignalPayload, C: SignalPayload>(
    peer: &mut RtcSignallingPeer<A, O, C>,
    set: SignalSet<A, C>,
    action: ClientResult<StepAction>,
)
    requires
        call_ensures(
            RtcSignallingPeer::<A, O, C>::step,
            (peer, Ok::<SignallingState<A, O, C>, ClientError>(SignallingState::ReceiveOffer(set))),
            action,
        ),
    ensures
        action is Ok <==> A::encoding(set.desc.model()) is Some && C::encoding(
            set.candidates.model(),
        ) is Some,
        action matches Err(error) ==> error is Bincode,
        action matches Ok(done) ==> {
            &&& done matches StepAction::SignalAnswer(remote_id, request)
            &&& remote_id == set.remote_id
            &&& request.grpc_timeout@ == old(peer)@.client.grpc_timeout
            &&& request.message.offerer_peer == Some(PeerId { id: set.remote_id })
            &&& request.message.answer_signal is Some
            &&& request.message.answer_signal->0.answerer_id == old(peer)@.local_id
            &&& A::decoding(request.message.answer_signal->0.answer@) == Some(set.desc.model())
            &&& C::decoding(request.message.answer_signal->0.candidates@) == Some(
                set.candidates.model(),
            )
        },
        final(peer)@.queued == old(peer)@.queued,
        final(peer)@.client == old(peer)@.client,
        final(peer)@.local_id == old(peer)@.local_id,
        final(peer)@.discovered_peers == old(peer)@.discovered_peers,
        final(peer)@.first_discovery == old(peer)@.first_discovery,
        final(peer)@.callbacks == old(peer)@.callbacks,
{
    A::decoding_inverts_encoding(set.desc.model());
    C::decoding_inverts_encoding(set.candidates.model());
}

/// An error of a task is passed on as it is, and nothing changes.
pub proof fn errors_are_passed_on<A: SignalPayload, O: SignalPayload, C: SignalPayload>(
    peer: &mut RtcSignallingPeer<A, O, C>,
    error: ClientError,
    action: ClientResult<StepAction>,
)
    requires
        call_ensures(
            RtcSignallingPeer::<A, O, C>::step,
            (peer, Err::<SignallingState<A, O, C>, ClientError>(error)),
            action,
        ),
    ensures
        action == Err::<StepAction, ClientError>(error),
        final(peer)@.queued == old(peer)@.queued,
        final(peer)@.client == old(peer)@.client,
        final(peer)@.local_id == old(peer)@.local_id,
        final(peer)@.discovered_peers == old(peer)@.discovered_peers,
        final(peer)@.first_discovery == old(peer)@.first_discovery,
        final(peer)@.callbacks == old(peer)@.callbacks,
{
}

/// Each of the five callbacks alone decides whether its own task is queued, whatever the others are:
/// what it is called with is queued as it came. Without it, an answer and a completed chain count as
/// handled, and an offer is neither created nor received.
pub proof fn each_callback_decides_alone<A, O, C>(
    peer: PeerView<A, O, C>,
    answer: SignalSet<A, C>,
    offer: SignalSet<O, C>,
    remote_id: u64,
)
    ensures
        ({
            let tasks = peer.stepped(SignallingState::AnswerListener(answer)).queued;
            &&& peer.callbacks.receive_answer ==> tasks.contains(Task::ReceiveAnswer(answer))
            &&& !peer.callbacks.receive_answer ==> tasks.last() == Task::<A, O, C>::Resolved(
                SignallingState::ReceiveAnswer(answer.remote_id),
            )
        }),
        ({
            let tasks = peer.stepped(SignallingState::OfferListener(offer)).queued;
            &&& peer.callbacks.receive_offer ==> tasks.contains(Task::ReceiveOffer(offer))
            &&& !peer.callbacks.receive_offer ==> tasks.last() is Pending
        }),
        ({
            let tasks = peer.stepped(SignallingState::ReceiveAnswer(remote_id)).queued;
            &&& peer.callbacks.local_sig_cplt ==> tasks.contains(Task::LocalSigCplt(remote_id))
            &&& !peer.callbacks.local_sig_cplt ==> tasks.last() == Task::<A, O, C>::Resolved(
                SignallingState::LocalSigCplt(remote_id),
            )
        }),
        ({
            let tasks = after_peer_event(peer, PeerEvent::AnswerSignalled(remote_id)).queued;
            &&& peer.callbacks.remote_sig_cplt ==> tasks.contains(Task::RemoteSigCplt(remote_id))
            &&& !peer.callbacks.remote_sig_cplt ==> tasks.last() == Task::<A, O, C>::Resolved(
                SignallingState::RemoteSigCplt(remote_id),
            )
        }),
        forall|changes: Vec<PeerChange>|
            peer.first_discovery && changes@ == seq![PeerChange { id: remote_id, change: 0 }] ==> {
                let tasks = (#[trigger] peer.stepped(SignallingState::PeerListener(changes))).queued;
                &&& peer.callbacks.create_offer ==> tasks.last() == Task::<A, O, C>::CreateOffer(
                    remote_id,
                )
                &&& !peer.callbacks.create_offer ==> tasks.last() is Pending
            },
{
    let answered = peer.stepped(SignallingState::AnswerListener(answer)).queued;
    let offered = peer.stepped(SignallingState::OfferListener(offer)).queued;
    let received = peer.stepped(SignallingState::ReceiveAnswer(remote_id)).queued;
    let signalled = after_peer_event(peer, PeerEvent::AnswerSignalled(remote_id)).queued;
    assert(answered.contains(answered.last()));
    assert(offered.contains(offered.last()));
    assert(received.contains(received.last()));
    assert(signalled.contains(signalled.last()));
    let addition = seq![PeerChange { id: remote_id, change: 0 }];
    additions_keep_their_order(addition);
    assert(added_ids(addition) =~= seq![remote_id]) by {
        reveal_with_fuel(Seq::filter, 2);
        assert(addition.drop_last() =~= Seq::empty());
        assert(addition[0].change != 1);
    }
}

/// What a step does to a peer depends on what came back, and on nothing else.
pub proof fn steps_are_events<A: SignalPayload, O: SignalPayload, C: SignalPayload>(
    peer: &mut RtcSignallingPeer<A, O, C>,
    state: SignallingState<A, O, C>,
    action: ClientResult<StepAction>,
)
    requires
        call_ensures(
            RtcSignallingPeer::<A, O, C>::step,
            (peer, Ok::<SignallingState<A, O, C>, ClientError>(state)),
            action,
        ),
    ensures
        final(peer)@ == after_peer_event(old(peer)@, PeerEvent::Stepped(state)),
{
}

/// What the last of some changes does to the peers that the others left.
proof fn changes_end_with_the_last(peers: Set<u64>, changes: Seq<PeerChange>)
    requires
        changes.len() > 0,
    ensures
        discovered_after(peers, changes) == changed_by(
            discovered_after(peers, changes.drop_last()),
            changes.last(),
        ),
{
    reveal_with_fuel(Seq::fold_left, 2);
}

/// Of a peer that a change names, the last change that names it decides whether it is known.
proof fn last_change_decides(peers: Set<u64>, changes: Seq<PeerChange>, i: int)
    requires
        0 <= i < changes.len(),
        forall|j: int| i < j < changes.len() ==> #[trigger] changes[j].id != changes[i].id,
    ensures
        discovered_after(peers, changes).contains(changes[i].id) <==> changes[i].change != 1,
    decreases changes.len(),
{
    let rest = changes.drop_last();
    changes_end_with_the_last(peers, changes);
    if i < rest.len() {
        assert(changes[changes.len() - 1].id != changes[i].id);
        assert forall|j: int| i < j < rest.len() implies #[trigger] rest[j].id != rest[i].id by {
            assert(changes[j].id != changes[i].id);
        }
        last_change_decides(peers, rest, i);
    }
}

/// A peer that no change names is known where it was before.
proof fn unnamed_peers_stay(peers: Set<u64>, changes: Seq<PeerChange>, id: u64)
    requires
        forall|i: int| 0 <= i < changes.len() ==> #[trigger] changes[i].id != id,
    ensures
        discovered_after(peers, changes).contains(id) <==> peers.contains(id),
    decreases changes.len(),
{
    if changes.len() == 0 {
        reveal_with_fuel(Seq::fold_left, 1);
    } else {
        let rest = changes.drop_last();
        changes_end_with_the_last(peers, changes);
        assert(changes[changes.len() - 1].id != id);
        assert forall|i: int| 0 <= i < rest.len() implies #[trigger] rest[i].id != id by {
            assert(changes[i].id != id);
        }
        unnamed_peers_stay(peers, rest, id);
    }
}

/// The peers that changes add: as many as there are additions, each at the place that the additions
/// before it leave it.
proof fn additions_keep_their_order(changes: Seq<PeerChange>)
    ensures
        added_ids(changes).len() == changes.filter(|change: PeerChange| change.change != 1).len(),
        forall|i: int|
            0 <= i < changes.len() && (#[trigger] changes[i]).change != 1 ==> {
                let place = changes.take(i).filter(|change: PeerChange| change.change != 1).len();
                place < added_ids(changes).len() && added_ids(changes)[place as int] == changes[i].id
            },
    decreases changes.len(),
{
    reveal(Seq::filter);
    let adds = |change: PeerChange| change.change != 1;
    let named = |change: PeerChange| is_addition(change);
    assert(adds =~= named);
    if changes.len() > 0 {
        let rest = changes.drop_last();
        let last = changes.last();
        additions_keep_their_order(rest);
        if adds(last) {
            assert(added_ids(changes) =~= added_ids(rest).push(last.id));
        } else {
            assert(added_ids(changes) =~= added_ids(rest));
        }
        assert forall|i: int| 0 <= i < changes.len() && (#[trigger] changes[i]).change != 1 implies ({
            let place = changes.take(i).filter(adds).len();
            place < added_ids(changes).len() && added_ids(changes)[place as int] == changes[i].id
        }) by {
            if i < rest.len() {
                assert(rest[i] == changes[i]);
                assert(rest.take(i) =~= changes.take(i));
            } else {
                assert(changes.take(i) =~= rest);
            }
        }
    }
}

/// The peer listens on for changes, and applies them: of a peer that they name, the last change that
/// names it decides whether it is known; of any other, nothing changes. Nothing is sent.
pub proof fn changes_are_applied<A: SignalPayload, O: SignalPayload, C: SignalPayload>(
    peer: &mut RtcSignallingPeer<A, O, C>,
    changes: Vec<PeerChange>,
    action: ClientResult<StepAction>,
)
    requires
        call_ensures(
            RtcSignallingPeer::<A, O, C>::step,
            (peer, Ok::<SignallingState<A, O, C>, ClientError>(SignallingState::PeerListener(changes))),
            action,
        ),
    ensures
        action == Ok::<StepAction, ClientError>(StepAction::Done),
        final(peer)@.queued.take(old(peer)@.queued.len() as int) == old(peer)@.queued,
        final(peer)@.queued.len() > old(peer)@.queued.len(),
        final(peer)@.queued[old(peer)@.queued.len() as int] is ListenPeers,
        forall|i: int|
            0 <= i < changes@.len() && (forall|j: int|
                i < j < changes@.len() ==> #[trigger] changes@[j].id != changes@[i].id) ==> (
            final(peer)@.discovered_peers.contains(#[trigger] changes@[i].id)
                <==> changes@[i].change != 1),
        forall|id: u64|
            (forall|i: int| 0 <= i < changes@.len() ==> #[trigger] changes@[i].id != id) ==> (
            #[trigger] final(peer)@.discovered_peers.contains(id)
                <==> old(peer)@.discovered_peers.contains(id)),
        !final(peer)@.first_discovery,
        final(peer)@.client == old(peer)@.client,
        final(peer)@.local_id == old(peer)@.local_id,
        final(peer)@.callbacks == old(peer)@.callbacks,
{
    let before = old(peer)@.queued;
    let after = final(peer)@.queued;
    assert(after.take(before.len() as int) =~= before);
    let known = old(peer)@.discovered_peers;
    let known_after = final(peer)@.discovered_peers;
    assert(known_after == discovered_after(known, changes@));
    assert forall|i: int|
        0 <= i < changes@.len() && (forall|j: int|
            i < j < changes@.len() ==> #[trigger] changes@[j].id != changes@[i].id) implies (
    known_after.contains(#[trigger] changes@[i].id) <==> changes@[i].change != 1) by {
        last_change_decides(known, changes@, i);
    }
    assert forall|id: u64|
        (forall|i: int| 0 <= i < changes@.len() ==> #[trigger] changes@[i].id != id) implies (
    #[trigger] known_after.contains(id) <==> known.contains(id)) by {
        unnamed_peers_stay(known, changes@, id);
    }
}

/// On the first changes that a peer hears of, it has an offer created for every peer that they add,
/// in the order of the changes, by the callback that creates offers, whatever else was set. Without
/// that callback none is ever created. Later changes make no offers.
pub proof fn first_discoveries_make_offers<A: SignalPayload, O: SignalPayload, C: SignalPayload>(
    peer: &mut RtcSignallingPeer<A, O, C>,
    changes: Vec<PeerChange>,
    action: ClientResult<StepAction>,
)
    requires
        call_ensures(
            RtcSignallingPeer::<A, O, C>::step,
            (peer, Ok::<SignallingState<A, O, C>, ClientError>(SignallingState::PeerListener(changes))),
            action,
        ),
    ensures
        !old(peer)@.first_discovery ==> final(peer)@.queued.len() == old(peer)@.queued.len() + 1,
        old(peer)@.first_discovery ==> final(peer)@.queued.len() == old(peer)@.queued.len() + 1
            + changes@.filter(|change: PeerChange| change.change != 1).len(),
        old(peer)@.first_discovery && old(peer)@.callbacks.create_offer ==> forall|i: int|
            0 <= i < changes@.len() && (#[trigger] changes@[i]).change != 1 ==> {
                let place = changes@.take(i).filter(|change: PeerChange| change.change != 1).len();
                final(peer)@.queued[old(peer)@.queued.len() as int + 1 + place]
                    == Task::<A, O, C>::CreateOffer(changes@[i].id)
            },
        !old(peer)@.callbacks.create_offer ==> forall|i: int|
            old(peer)@.queued.len() < i < final(peer)@.queued.len() ==> (
            #[trigger] final(peer)@.queued[i]) is Pending,
{
    additions_keep_their_order(changes@);
    let before = old(peer)@;
    let after = final(peer)@.queued;
    if before.first_discovery && before.callbacks.create_offer {
        let ids = added_ids(changes@);
        assert forall|i: int| 0 <= i < changes@.len() && (#[trigger] changes@[i]).change != 1 implies
            after[before.queued.len() as int + 1 + changes@.take(i).filter(
            |change: PeerChange| change.change != 1,
        ).len()] == Task::<A, O, C>::CreateOffer(changes@[i].id) by {
            let place = changes@.take(i).filter(|change: PeerChange| change.change != 1).len();
            assert(ids[place as int] == changes@[i].id);
        }
    }
}

/// Once the server has taken an answer, the callback for completed remote chains is told of its
/// peer, where that was set, whatever else was set. Where it was not, the chain counts as handled. A
/// refusal is passed on. Nothing else changes.
pub proof fn taken_answers_complete_the_remote_chain<A: SignalPayload, O: SignalPayload, C: SignalPayload>(
    peer: &mut RtcSignallingPeer<A, O, C>,
    remote_id: u64,
    reply: Result<SignalAnswerRsp, Status>,
    outcome: ClientResult<()>,
)
    requires
        call_ensures(
            RtcSignallingPeer::<A, O, C>::answer_signalled,
            (peer, remote_id, reply),
            outcome,
        ),
    ensures
        outcome is Ok <==> reply is Ok,
        reply matches Err(status) ==> {
            &&& outcome == Err::<(), ClientError>(ClientError::TonicStatus(status))
            &&& final(peer)@.queued == old(peer)@.queued
        },
        final(peer)@.queued.take(old(peer)@.queued.len() as int) == old(peer)@.queued,
        reply is Ok ==> final(peer)@.queued.len() == old(peer)@.queued.len() + 1,
        reply is Ok && old(peer)@.callbacks.remote_sig_cplt ==> final(peer)@.queued.last()
            == Task::<A, O, C>::RemoteSigCplt(remote_id),
        reply is Ok && !old(peer)@.callbacks.remote_sig_cplt ==> final(peer)@.queued.last()
            == Task::<A, O, C>::Resolved(SignallingState::RemoteSigCplt(remote_id)),
        final(peer)@.client == old(peer)@.client,
        final(peer)@.local_id == old(peer)@.local_id,
        final(peer)@.discovered_peers == old(peer)@.discovered_peers,
        final(peer)@.first_discovery == old(peer)@.first_discovery,
        final(peer)@.callbacks == old(peer)@.callbacks,
{
    let before = old(peer)@.queued;
    let after = final(peer)@.queued;
    assert(after.take(before.len() as int) =~= before);
}

/// Nothing changes when the server replies to an offer. A refusal is passed on.
pub proof fn taken_offers_change_nothing<A: SignalPayload, O: SignalPayload, C: SignalPayload>(
    peer: &mut RtcSignallingPeer<A, O, C>,
    remote_id: u64,
    reply: Result<SignalOfferRsp, Status>,
    outcome: ClientResult<()>,
)
    requires
        call_ensures(RtcSignallingPeer::<A, O, C>::offer_signalled, (peer, remote_id, reply), outcome),
    ensures
        outcome is Ok <==> reply is Ok,
        reply matches Err(status) ==> outcome == Err::<(), ClientError>(
            ClientError::TonicStatus(status),
        ),
        final(peer)@.queued == old(peer)@.queued,
        final(peer)@.client == old(peer)@.client,
        final(peer)@.local_id == old(peer)@.local_id,
        final(peer)@.discovered_peers == old(peer)@.discovered_peers,
        final(peer)@.first_discovery == old(peer)@.first_discovery,
        final(peer)@.callbacks == old(peer)@.callbacks,
{
}

/// Setting the callback that creates offers sets that one alone, and changes nothing else.
pub proof fn setting_on_create_offer_sets_it_alone<A, O, C>(
    peer: &mut RtcSignallingPeer<A, O, C>,
    after: &mut RtcSignallingPeer<A, O, C>,
)
    requires
        call_ensures(RtcSignallingPeer::<A, O, C>::set_on_create_offer, (peer,), after),
    ensures
        old(after)@.callbacks.create_offer,
        old(after)@.callbacks.receive_answer == old(peer)@.callbacks.receive_answer,
        old(after)@.callbacks.local_sig_cplt == old(peer)@.callbacks.local_sig_cplt,
        old(after)@.callbacks.receive_offer == old(peer)@.callbacks.receive_offer,
        old(after)@.callbacks.remote_sig_cplt == old(peer)@.callbacks.remote_sig_cplt,
        old(after)@.client == old(peer)@.client,
        old(after)@.local_id == old(peer)@.local_id,
        old(after)@.discovered_peers == old(peer)@.discovered_peers,
        old(after)@.first_discovery == old(peer)@.first_discovery,
        old(after)@.queued == old(peer)@.queued,
        *final(peer) == *final(after),
{
}

/// Setting the callback that receives answers sets that one alone, and changes nothing else.
pub proof fn setting_on_receive_answer_sets_it_alone<A, O, C>(
    peer: &mut RtcSignallingPeer<A, O, C>,
    after: &mut RtcSignallingPeer<A, O, C>,
)
    requires
        call_ensures(RtcSignallingPeer::<A, O, C>::set_on_receive_answer, (peer,), after),
    ensures
        old(after)@.callbacks.receive_answer,
        old(after)@.callbacks.create_offer == old(peer)@.callbacks.create_offer,
        old(after)@.callbacks.local_sig_cplt == old(peer)@.callbacks.local_sig_cplt,
        old(after)@.callbacks.receive_offer == old(peer)@.callbacks.receive_offer,
        old(after)@.callbacks.remote_sig_cplt == old(peer)@.callbacks.remote_sig_cplt,
        old(after)@.client == old(peer)@.client,
        old(after)@.local_id == old(peer)@.local_id,
        old(after)@.discovered_peers == old(peer)@.discovered_peers,
        old(after)@.first_discovery == old(peer)@.first_discovery,
        old(after)@.queued == old(peer)@.queued,
        *final(peer) == *final(after),
{
}

/// Setting the callback that is for completed local chains sets that one alone, and changes nothing
/// else.
pub proof fn setting_on_local_sig_cplt_sets_it_alone<A, O, C>(
    peer: &mut RtcSignallingPeer<A, O, C>,
    after: &mut RtcSignallingPeer<A, O, C>,
)
    requires
        call_ensures(RtcSignallingPeer::<A, O, C>::set_on_local_sig_cplt, (peer,), after),
    ensures
        old(after)@.callbacks.local_sig_cplt,
        old(after)@.callbacks.create_offer == old(peer)@.callbacks.create_offer,
        old(after)@.callbacks.receive_answer == old(peer)@.callbacks.receive_answer,
        old(after)@.callbacks.receive_offer == old(peer)@.callbacks.receive_offer,
        old(after)@.callbacks.remote_sig_cplt == old(peer)@.callbacks.remote_sig_cplt,
        old(after)@.client == old(peer)@.client,
        old(after)@.local_id == old(peer)@.local_id,
        old(after)@.discovered_peers == old(peer)@.discovered_peers,
        old(after)@.first_discovery == old(peer)@.first_discovery,
        old(after)@.queued == old(peer)@.queued,
        *final(peer) == *final(after),
{
}

/// Setting the callback that receives offers sets that one alone, and changes nothing else.
pub proof fn setting_on_receive_offer_sets_it_alone<A, O, C>(
    peer: &mut RtcSignallingPeer<A, O, C>,
    after: &mut RtcSignallingPeer<A, O, C>,
)
    requires
        call_ensures(RtcSignallingPeer::<A, O, C>::set_on_receive_offer, (peer,), after),
    ensures
        old(after)@.callbacks.receive_offer,
        old(after)@.callbacks.create_offer == old(peer)@.callbacks.create_offer,
        old(after)@.callbacks.receive_answer == old(peer)@.callbacks.receive_answer,
        old(after)@.callbacks.local_sig_cplt == old(peer)@.callbacks.local_sig_cplt,
        old(after)@.callbacks.remote_sig_cplt == old(peer)@.callbacks.remote_sig_cplt,
        old(after)@.client == old(peer)@.client,
        old(after)@.local_id == old(peer)@.local_id,
        old(after)@.discovered_peers == old(peer)@.discovered_peers,
        old(after)@.first_discovery == old(peer)@.first_discovery,
        old(after)@.queued == old(peer)@.queued,
        *final(peer) == *final(after),
{
}

/// Setting the callback that is for completed remote chains sets that one alone, and changes nothing
/// else.
pub proof fn setting_on_remote_sig_cplt_sets_it_alone<A, O, C>(
    peer: &mut RtcSignallingPeer<A, O, C>,
    after: &mut RtcSignallingPeer<A, O, C>,
)
    requires
        call_ensures(RtcSignallingPeer::<A, O, C>::set_on_remote_sig_cplt, (peer,), after),
    ensures
        old(after)@.callbacks.remote_sig_cplt,
        old(after)@.callbacks.create_offer == old(peer)@.callbacks.create_offer,
        old(after)@.callbacks.receive_answer == old(peer)@.callbacks.receive_answer,
        old(after)@.callbacks.local_sig_cplt == old(peer)@.callbacks.local_sig_cplt,
        old(after)@.callbacks.receive_offer == old(peer)@.callbacks.receive_offer,
        old(after)@.client == old(peer)@.client,
        old(after)@.local_id == old(peer)@.local_id,
        old(after)@.discovered_peers == old(peer)@.discovered_peers,
        old(after)@.first_discovery == old(peer)@.first_discovery,
        old(after)@.queued == old(peer)@.queued,
        *final(peer) == *final(after),
{
}

/// At first no callback is set.
pub proof fn no_callback_is_set_at_first(callbacks: Callbacks)
    requires
        call_ensures(Callbacks::none, (), callbacks),
    ensures
        !callbacks.create_offer,
        !callbacks.receive_answer,
        !callbacks.local_sig_cplt,
        !callbacks.receive_offer,
        !callbacks.remote_sig_cplt,
{
}

/// A new peer knows of no other, has no callbacks, and is about to listen for peers, for offers and
/// for answers, once each.
pub proof fn new_peers_listen<A, O, C>(
    client: RtcSignallingClient,
    local_id: u64,
    peer: RtcSignallingPeer<A, O, C>,
)
    requires
        call_ensures(RtcSignallingPeer::<A, O, C>::new, (client, local_id), peer),
    ensures
        peer@.client == client@,
        peer@.local_id == local_id,
        forall|id: u64| !peer@.discovered_peers.contains(id),
        peer@.first_discovery,
        !peer@.callbacks.create_offer,
        !peer@.callbacks.receive_answer,
        !peer@.callbacks.local_sig_cplt,
        !peer@.callbacks.receive_offer,
        !peer@.callbacks.remote_sig_cplt,
        peer@.queued.len() == 3,
        peer@.queued[0] is ListenPeers,
        peer@.queued[1] is ListenOffers,
        peer@.queued[2] is ListenAnswers,
{
}

/// A peer says its id, and the peers that it knows.
pub proof fn peers_say_what_they_know<A, O, C>(
    peer: &RtcSignallingPeer<A, O, C>,
    id: u64,
    peers: &BTreeSet<u64>,
)
    requires
        call_ensures(RtcSignallingPeer::<A, O, C>::local_id, (peer,), id),
        call_ensures(RtcSignallingPeer::<A, O, C>::discovered_peers, (peer,), peers),
    ensures
        id == peer@.local_id,
        forall|other: u64| peers@.contains(other) <==> #[trigger] peer@.discovered_peers.contains(
            other,
        ),
{
}

/// The tasks that were queued are handed over, all of them and in their order, and once. Nothing
/// else changes.
pub proof fn tasks_are_handed_over<A, O, C>(
    peer: &mut RtcSignallingPeer<A, O, C>,
    tasks: Vec<Task<A, O, C>>,
)
    requires
        call_ensures(RtcSignallingPeer::<A, O, C>::take_queued, (peer,), tasks),
    ensures
        tasks@ == old(peer)@.queued,
        final(peer)@.queued.len() == 0,
        final(peer)@.client == old(peer)@.client,
        final(peer)@.local_id == old(peer)@.local_id,
        final(peer)@.discovered_peers == old(peer)@.discovered_peers,
        final(peer)@.first_discovery == old(peer)@.first_discovery,
        final(peer)@.callbacks == old(peer)@.callbacks,
{
}

/// A peer that is closed has nothing queued. Nothing else changes, and closing never fails.
pub proof fn closed_peers_have_nothing_queued<A, O, C>(
    peer: &mut RtcSignallingPeer<A, O, C>,
    outcome: ClientResult<()>,
)
    requires
        call_ensures(RtcSignallingPeer::<A, O, C>::close, (peer,), outcome),
    ensures
        outcome is Ok,
        final(peer)@.queued.len() == 0,
        final(peer)@.client == old(peer)@.client,
        final(peer)@.local_id == old(peer)@.local_id,
        final(peer)@.discovered_peers == old(peer)@.discovered_peers,
        final(peer)@.first_discovery == old(peer)@.first_discovery,
        final(peer)@.callbacks == old(peer)@.callbacks,
{
}

/// What the peer listener hears is handed on. It is an error where the server closes the listener,
/// and an error of the server is passed on.
pub proof fn heard_changes_are_handed_on<A, O, C>(
    message: Result<Option<PeerListenerRsp>, Status>,
    state: ClientResult<SignallingState<A, O, C>>,
)
    requires
        call_ensures(peer_listener_task::<A, O, C>, (message,), state),
    ensures
        state is Ok <==> message is Ok && message->Ok_0 is Some,
        message matches Ok(Some(heard)) ==> state->Ok_0 == SignallingState::<A, O, C>::PeerListener(
            heard.peer_changes,
        ),
        message matches Ok(None) ==> state->Err_0 is ListenerClosed,
        message matches Err(status) ==> state->Err_0 == ClientError::TonicStatus(status),
{
}

/// Every offer that the offer listener hears is handed on, with its description, its candidates and
/// its sender, where both can be read, and is an error otherwise. A message without one completes
/// nothing. It is an error where the server closes the listener, and an error of the server is passed
/// on.
pub proof fn heard_offers_are_handed_on<A, O: SignalPayload, C: SignalPayload>(
    message: Result<Option<OfferListenerRsp>, Status>,
    state: Option<ClientResult<SignallingState<A, O, C>>>,
)
    requires
        call_ensures(offer_listener_task::<A, O, C>, (message,), state),
    ensures
        state is None <==> (message matches Ok(Some(heard)) && heard.offer_signal is None),
        message matches Ok(None) ==> state->0 is Err && state->0->Err_0 is ListenerClosed,
        message matches Err(status) ==> state->0 is Err && state->0->Err_0
            == ClientError::TonicStatus(status),
        message matches Ok(Some(OfferListenerRsp { offer_signal: Some(signal) })) ==> {
            &&& state->0 is Ok <==> O::decoding(signal.offer@) is Some && C::decoding(
                signal.candidates@,
            ) is Some
            &&& state->0 matches Err(error) ==> error is Bincode
            &&& state->0 matches Ok(heard) ==> {
                &&& heard matches SignallingState::OfferListener(set)
                &&& Some(set.desc.model()) == O::decoding(signal.offer@)
                &&& Some(set.candidates.model()) == C::decoding(signal.candidates@)
                &&& set.remote_id == signal.offerer_id
            }
        },
{
}

/// Every answer that the answer listener hears is handed on, with its description, its candidates and
/// its sender, where both can be read, and is an error otherwise. A message without one completes
/// nothing. It is an error where the server closes the listener, and an error of the server is passed
/// on.
pub proof fn heard_answers_are_handed_on<A: SignalPayload, O, C: SignalPayload>(
    message: Result<Option<AnswerListenerRsp>, Status>,
    state: Option<ClientResult<SignallingState<A, O, C>>>,
)
    requires
        call_ensures(answer_listener_task::<A, O, C>, (message,), state),
    ensures
        state is None <==> (message matches Ok(Some(heard)) && heard.answer_signal is None),
        message matches Ok(None) ==> state->0 is Err && state->0->Err_0 is ListenerClosed,
        message matches Err(status) ==> state->0 is Err && state->0->Err_0
            == ClientError::TonicStatus(status),
        message matches Ok(Some(AnswerListenerRsp { answer_signal: Some(signal) })) ==> {
            &&& state->0 is Ok <==> A::decoding(signal.answer@) is Some && C::decoding(
                signal.candidates@,
            ) is Some
            &&& state->0 matches Err(error) ==> error is Bincode
            &&& state->0 matches Ok(heard) ==> {
                &&& heard matches SignallingState::AnswerListener(set)
                &&& Some(set.desc.model()) == A::decoding(signal.answer@)
                &&& Some(set.candidates.model()) == C::decoding(signal.candidates@)
                &&& set.remote_id == signal.answerer_id
            }
        },
{
}

/// Starting a peer begins with a request for an identity, with the deadline of the client.
pub proof fn peers_start_by_asking_for_an_identity(
    client: &RtcSignallingClient,
    request: Request<AdvertiseReq>,
)
    requires
        call_ensures(RtcSignallingClient::start_peer, (client,), request),
    ensures
        request.grpc_timeout@ == client@.grpc_timeout,
{
}

/// The peer then listens for peers under the id that the server assigned. A refusal is passed on.
pub proof fn peers_go_on_under_their_identity(
    client: &RtcSignallingClient,
    reply: Result<AdvertiseRsp, Status>,
    request: ClientResult<ListenerRequest>,
)
    requires
        reply matches Ok(response) ==> response.local_peer is Some,
        call_ensures(RtcSignallingClient::peer_advertised, (client, reply), request),
    ensures
        call_requires(RtcSignallingClient::peer_advertised, (client, reply)),
        request is Ok <==> reply is Ok,
        reply matches Err(status) ==> request->Err_0 == ClientError::TonicStatus(status),
        reply matches Ok(response) ==> {
            &&& request->Ok_0 matches ListenerRequest::Peers(id, next)
            &&& id == response.local_peer->0.id
            &&& next.message.local_peer == Some(PeerId { id })
            &&& next.grpc_timeout@ == client@.grpc_timeout
        },
{
}

/// After the listener for peers comes that for offers, after that the one for answers, all under one
/// id. Then the peer has started, under that id. A refusal is passed on.
pub proof fn listeners_are_opened_in_turn<A, O, C>(
    client: &RtcSignallingClient,
    request: ListenerRequest,
    reply: Result<(), Status>,
    starting: ClientResult<Starting<A, O, C>>,
)
    requires
        call_ensures(
            RtcSignallingClient::listener_opened::<A, O, C>,
            (client, request, reply),
            starting,
        ),
    ensures
        starting is Ok <==> reply is Ok,
        reply matches Err(status) ==> starting->Err_0 == ClientError::TonicStatus(status),
        reply is Ok ==> (request matches ListenerRequest::Peers(id, _) ==> {
            &&& starting->Ok_0 matches Starting::OpenListener(ListenerRequest::Offers(same, next))
            &&& same == id
            &&& next.message.local_peer == Some(PeerId { id })
            &&& next.grpc_timeout@ == client@.grpc_timeout
        }),
        reply is Ok ==> (request matches ListenerRequest::Offers(id, _) ==> {
            &&& starting->Ok_0 matches Starting::OpenListener(ListenerRequest::Answers(same, next))
            &&& same == id
            &&& next.message.local_peer == Some(PeerId { id })
            &&& next.grpc_timeout@ == client@.grpc_timeout
        }),
        reply is Ok ==> (request matches ListenerRequest::Answers(id, _) ==> {
            &&& starting->Ok_0 matches Starting::Started(peer)
            &&& peer@.local_id == id
            &&& peer@.client == client@
            &&& forall|other: u64| !peer@.discovered_peers.contains(other)
            &&& peer@.first_discovery
            &&& !peer@.callbacks.create_offer
            &&& !peer@.callbacks.receive_answer
            &&& !peer@.callbacks.local_sig_cplt
            &&& !peer@.callbacks.receive_offer
            &&& !peer@.callbacks.remote_sig_cplt
            &&& peer@.queued.len() == 3
            &&& peer@.queued[0] is ListenPeers
            &&& peer@.queued[1] is ListenOffers
            &&& peer@.queued[2] is ListenAnswers
        }),
{
}

} // verus!
