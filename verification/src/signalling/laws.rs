//! What holds of signalling as a whole: messages arrive in order and unchanged, every peer learns of
//! every other, and of any two peers one makes the other an offer.

use vstd::prelude::*;

use crate::signalling::client::carries_answer;
use crate::signalling::client::carries_offer;
use crate::signalling::codec::SignalPayload;
use crate::signalling::mailbox::Signal;
use crate::signalling::mailbox::MAILBOX_CAPACITY;
use crate::signalling::pb::PeerChange;
use crate::signalling::pb::SignalAnswer;
use crate::signalling::pb::SignalAnswerReq;
use crate::signalling::pb::SignalOffer;
use crate::signalling::pb::SignalOfferReq;
use crate::signalling::peer::added_ids;
use crate::signalling::peer::changed_by;
use crate::signalling::peer::discovered_after;
use crate::signalling::peer::Callbacks;
use crate::signalling::peer::PeerView;
use crate::signalling::peer::SignallingState;
use crate::signalling::peer::Task;
use crate::signalling::server::changed_ids;
use crate::signalling::server::id_after;
use crate::signalling::server::names_all_but;
use crate::signalling::server::only_adds;
use crate::signalling::server::SignallingView;

pub mod client;
pub mod messages;
pub mod peer;
pub mod serve;
pub mod server;

verus! {

/// What changes the state of a server. A request that is refused changes nothing.
pub enum ServerEvent {
    /// A peer has advertised itself.
    Advertised(u64),
    /// An offer was put into the mailbox of a peer.
    OfferSignalled(u64, Signal),
    /// An answer was put into the mailbox of a peer.
    AnswerSignalled(u64, Signal),
    /// A peer has asked for its next offer.
    OfferTaken(u64),
    /// A peer has asked for its next answer.
    AnswerTaken(u64),
}

/// Whether the server lets an event happen.
pub open spec fn can_happen(state: SignallingView, event: ServerEvent) -> bool {
    match event {
        ServerEvent::Advertised(id) => !state.peers.contains_key(id),
        ServerEvent::OfferSignalled(id, _) => state.peers.contains_key(id)
            && state.peers[id].offers.len() < MAILBOX_CAPACITY,
        ServerEvent::AnswerSignalled(id, _) => state.peers.contains_key(id)
            && state.peers[id].answers.len() < MAILBOX_CAPACITY,
        ServerEvent::OfferTaken(_) => true,
        ServerEvent::AnswerTaken(_) => true,
    }
}

/// The state after an event.
pub open spec fn after_event(state: SignallingView, event: ServerEvent) -> SignallingView {
    match event {
        ServerEvent::Advertised(id) => state.with_peer(id),
        ServerEvent::OfferSignalled(id, offer) => state.with_offer(id, offer),
        ServerEvent::AnswerSignalled(id, answer) => state.with_answer(id, answer),
        ServerEvent::OfferTaken(id) => state.offer_taken(id),
        ServerEvent::AnswerTaken(id) => state.answer_taken(id),
    }
}

/// The state after events.
pub open spec fn after_events(state: SignallingView, events: Seq<ServerEvent>) -> SignallingView
    decreases events.len(),
{
    if events.len() == 0 {
        state
    } else {
        after_event(after_events(state, events.drop_last()), events.last())
    }
}

/// Whether the server lets events happen, one after the other.
pub open spec fn can_all_happen(state: SignallingView, events: Seq<ServerEvent>) -> bool
    decreases events.len(),
{
    events.len() == 0 || {
        &&& can_all_happen(state, events.drop_last())
        &&& can_happen(after_events(state, events.drop_last()), events.last())
    }
}

/// How often a peer has asked for its next offer.
pub open spec fn offers_asked_for(events: Seq<ServerEvent>, id: u64) -> nat
    decreases events.len(),
{
    if events.len() == 0 {
        0
    } else {
        offers_asked_for(events.drop_last(), id) + if events.last() == ServerEvent::OfferTaken(id) {
            1nat
        } else {
            0nat
        }
    }
}

/// How often a peer has asked for its next answer.
pub open spec fn answers_asked_for(events: Seq<ServerEvent>, id: u64) -> nat
    decreases events.len(),
{
    if events.len() == 0 {
        0
    } else {
        answers_asked_for(events.drop_last(), id) + if events.last() == ServerEvent::AnswerTaken(
            id,
        ) {
            1nat
        } else {
            0nat
        }
    }
}

/// An offer message keeps its turn: whatever else happens, it moves up by one place each time its
/// peer asks for an offer, and by nothing else.
pub proof fn offers_keep_their_turn(
    state: SignallingView,
    events: Seq<ServerEvent>,
    id: u64,
    position: int,
)
    requires
        can_all_happen(state, events),
        state.peers.contains_key(id),
        offers_asked_for(events, id) <= position < state.peers[id].offers.len(),
    ensures
        after_events(state, events).peers.contains_key(id),
        position - offers_asked_for(events, id) < after_events(state, events).peers[id].offers.len(),
        after_events(state, events).peers[id].offers[position - offers_asked_for(events, id)]
            == state.peers[id].offers[position],
    decreases events.len(),
{
    if events.len() > 0 {
        offers_keep_their_turn(state, events.drop_last(), id, position);
    }
}

/// An answer message keeps its turn: whatever else happens, it moves up by one place each time its
/// peer asks for an answer, and by nothing else.
pub proof fn answers_keep_their_turn(
    state: SignallingView,
    events: Seq<ServerEvent>,
    id: u64,
    position: int,
)
    requires
        can_all_happen(state, events),
        state.peers.contains_key(id),
        answers_asked_for(events, id) <= position < state.peers[id].answers.len(),
    ensures
        after_events(state, events).peers.contains_key(id),
        position - answers_asked_for(events, id) < after_events(
            state,
            events,
        ).peers[id].answers.len(),
        after_events(state, events).peers[id].answers[position - answers_asked_for(events, id)]
            == state.peers[id].answers[position],
    decreases events.len(),
{
    if events.len() > 0 {
        answers_keep_their_turn(state, events.drop_last(), id, position);
    }
}

/// An offer arrives as it was made. The request that carries it is accepted while some messages wait
/// for its addressee. Once the addressee has asked for as many, whatever else has happened, it hears
/// the offer next, and makes of it the description, the candidates and the sender that were sent.
pub proof fn offers_arrive<O: SignalPayload, C: SignalPayload>(
    state: SignallingView,
    request: SignalOfferReq,
    id: u64,
    remote_id: u64,
    offer: O::Model,
    candidates: C::Model,
    events: Seq<ServerEvent>,
)
    requires
        O::encoding(offer) is Some,
        C::encoding(candidates) is Some,
        carries_offer(
            request,
            id,
            remote_id,
            O::encoding(offer)->0,
            C::encoding(candidates)->0,
        ),
        state.peers.contains_key(remote_id),
        can_all_happen(
            state.with_offer(remote_id, Signal::of_offer(request.offer_signal->0)),
            events,
        ),
        offers_asked_for(events, remote_id) == state.peers[remote_id].offers.len(),
    ensures
        ({
            let later = after_events(
                state.with_offer(remote_id, Signal::of_offer(request.offer_signal->0)),
                events,
            );
            &&& later.peers.contains_key(remote_id)
            &&& later.peers[remote_id].offers.len() > 0
            &&& exists|heard: SignalOffer|
                later.peers[remote_id].offers[0] == Some(#[trigger] Signal::of_offer(heard))
            &&& forall|heard: SignalOffer|
                later.peers[remote_id].offers[0] == Some(#[trigger] Signal::of_offer(heard)) ==> {
                    &&& O::decoding(heard.offer@) == Some(offer)
                    &&& C::decoding(heard.candidates@) == Some(candidates)
                    &&& heard.offerer_id == id
                }
        }),
{
    let waiting = state.with_offer(remote_id, Signal::of_offer(request.offer_signal->0));
    let position = state.peers[remote_id].offers.len() as int;
    offers_keep_their_turn(waiting, events, remote_id, position);
    assert(after_events(waiting, events).peers[remote_id].offers[0] == Some(
        Signal::of_offer(request.offer_signal->0),
    ));
    O::decoding_inverts_encoding(offer);
    C::decoding_inverts_encoding(candidates);
}

/// An answer arrives as it was given. The request that carries it is accepted while some messages
/// wait for its addressee. Once the addressee has asked for as many, whatever else has happened, it
/// hears the answer next, and makes of it the description, the candidates and the sender that were
/// sent.
pub proof fn answers_arrive<A: SignalPayload, C: SignalPayload>(
    state: SignallingView,
    request: SignalAnswerReq,
    id: u64,
    remote_id: u64,
    answer: A::Model,
    candidates: C::Model,
    events: Seq<ServerEvent>,
)
    requires
        A::encoding(answer) is Some,
        C::encoding(candidates) is Some,
        carries_answer(
            request,
            id,
            remote_id,
            A::encoding(answer)->0,
            C::encoding(candidates)->0,
        ),
        state.peers.contains_key(remote_id),
        can_all_happen(
            state.with_answer(remote_id, Signal::of_answer(request.answer_signal->0)),
            events,
        ),
        answers_asked_for(events, remote_id) == state.peers[remote_id].answers.len(),
    ensures
        ({
            let later = after_events(
                state.with_answer(remote_id, Signal::of_answer(request.answer_signal->0)),
                events,
            );
            &&& later.peers.contains_key(remote_id)
            &&& later.peers[remote_id].answers.len() > 0
            &&& exists|heard: SignalAnswer|
                later.peers[remote_id].answers[0] == Some(#[trigger] Signal::of_answer(heard))
            &&& forall|heard: SignalAnswer|
                later.peers[remote_id].answers[0] == Some(#[trigger] Signal::of_answer(heard)) ==> {
                    &&& A::decoding(heard.answer@) == Some(answer)
                    &&& C::decoding(heard.candidates@) == Some(candidates)
                    &&& heard.answerer_id == id
                }
        }),
{
    let waiting = state.with_answer(remote_id, Signal::of_answer(request.answer_signal->0));
    let position = state.peers[remote_id].answers.len() as int;
    answers_keep_their_turn(waiting, events, remote_id, position);
    assert(after_events(waiting, events).peers[remote_id].answers[0] == Some(
        Signal::of_answer(request.answer_signal->0),
    ));
    A::decoding_inverts_encoding(answer);
    C::decoding_inverts_encoding(candidates);
}

/// Whether an event is about the offers of a peer.
pub open spec fn is_about_offers(event: ServerEvent, id: u64) -> bool {
    match event {
        ServerEvent::Advertised(other) => other == id,
        ServerEvent::OfferSignalled(other, _) => other == id,
        ServerEvent::OfferTaken(other) => other == id,
        _ => false,
    }
}

/// Whether an event is about the answers of a peer.
pub open spec fn is_about_answers(event: ServerEvent, id: u64) -> bool {
    match event {
        ServerEvent::Advertised(other) => other == id,
        ServerEvent::AnswerSignalled(other, _) => other == id,
        ServerEvent::AnswerTaken(other) => other == id,
        _ => false,
    }
}

/// An event leaves the mailboxes alone that it is not about.
pub proof fn mailboxes_are_apart(state: SignallingView, event: ServerEvent, id: u64)
    requires
        state.peers.contains_key(id),
    ensures
        !is_about_offers(event, id) ==> after_event(state, event).peers[id].offers
            == state.peers[id].offers,
        !is_about_answers(event, id) ==> after_event(state, event).peers[id].answers
            == state.peers[id].answers,
{
}

/// Peers are never dropped, and what was announced stays announced.
pub proof fn peers_stay(state: SignallingView, events: Seq<ServerEvent>)
    ensures
        state.peers.dom().subset_of(after_events(state, events).peers.dom()),
        state.announced.len() <= after_events(state, events).announced.len(),
        after_events(state, events).announced.take(state.announced.len() as int)
            == state.announced,
    decreases events.len(),
{
    if events.len() > 0 {
        peers_stay(state, events.drop_last());
        let before = after_events(state, events.drop_last());
        let after = after_events(state, events);
        assert(after.announced.take(state.announced.len() as int) =~= before.announced.take(
            state.announced.len() as int,
        ));
    }
}

/// Whatever happens, the peers are those that advertised themselves, each once, and no mailbox is
/// over capacity.
pub proof fn consistency_is_kept(state: SignallingView, events: Seq<ServerEvent>)
    requires
        state.is_consistent(),
        can_all_happen(state, events),
    ensures
        after_events(state, events).is_consistent(),
    decreases events.len(),
{
    if events.len() > 0 {
        consistency_is_kept(state, events.drop_last());
        let before = after_events(state, events.drop_last());
        let after = after_events(state, events);
        if let ServerEvent::Advertised(id) = events.last() {
            assert(!before.announced.contains(id)) by {
                assert(!before.announced.to_set().contains(id));
            }
            before.announced.lemma_push_to_set_commute(id);
            assert(after.announced.to_set() =~= after.peers.dom());
        } else {
            assert(after.peers.dom() =~= before.peers.dom());
        }
    }
}

/// Changes that add those peers.
pub open spec fn additions(ids: Seq<u64>) -> Seq<PeerChange> {
    ids.map_values(|id: u64| PeerChange::spec_add(id))
}

/// Changes that are heard one after the other do what they would do if they were heard at once.
pub proof fn changes_add_up(peers: Set<u64>, first: Seq<PeerChange>, second: Seq<PeerChange>)
    ensures
        discovered_after(peers, first + second) == discovered_after(
            discovered_after(peers, first),
            second,
        ),
{
    let apply = |known: Set<u64>, change: PeerChange| changed_by(known, change);
    let all = first + second;
    all.lemma_fold_left_split(peers, apply, first.len() as int);
    assert(all.subrange(0, first.len() as int) =~= first);
    assert(all.subrange(first.len() as int, all.len() as int) =~= second);
}

/// Changes that only add peers make exactly those known, besides the ones that were.
pub proof fn additions_are_discovered(peers: Set<u64>, changes: Seq<PeerChange>)
    requires
        only_adds(changes),
    ensures
        discovered_after(peers, changes) == peers.union(changed_ids(changes).to_set()),
    decreases changes.len(),
{
    reveal_with_fuel(Seq::fold_left, 2);
    let ids = changed_ids(changes);
    if changes.len() == 0 {
        assert(peers.union(ids.to_set()) =~= peers);
    } else {
        let rest = changes.drop_last();
        assert forall|i: int| 0 <= i < rest.len() implies #[trigger] rest[i]
            == PeerChange::spec_add(rest[i].id) by {
            assert(rest[i] == changes[i]);
        }
        additions_are_discovered(peers, rest);
        let last = changes.last();
        assert(last == changes[changes.len() - 1]);
        assert(ids =~= changed_ids(rest).push(last.id));
        changed_ids(rest).lemma_push_to_set_commute(last.id);
        assert(discovered_after(peers, changes) =~= discovered_after(peers, rest).insert(last.id));
        assert(peers.union(ids.to_set()) =~= discovered_after(peers, rest).insert(last.id));
    }
}

/// A peer that listens learns of every other peer, and of no other: what its listener starts with,
/// together with what has been announced since, makes known all the peers but itself.
pub proof fn every_peer_is_discovered(
    state: SignallingView,
    events: Seq<ServerEvent>,
    local_id: u64,
    initial: Seq<PeerChange>,
)
    requires
        state.is_consistent(),
        can_all_happen(state, events),
        state.peers.contains_key(local_id),
        only_adds(initial),
        names_all_but(changed_ids(initial), state.peers.dom(), local_id),
    ensures
        discovered_after(
            Set::empty(),
            initial + additions(
                after_events(state, events).announced.skip(state.announced.len() as int),
            ),
        ) == after_events(state, events).peers.dom().remove(local_id),
{
    let later = after_events(state, events);
    let since = later.announced.skip(state.announced.len() as int);
    let heard = additions(since);
    peers_stay(state, events);
    consistency_is_kept(state, events);
    changes_add_up(Set::empty(), initial, heard);
    additions_are_discovered(Set::empty(), initial);
    assert(changed_ids(heard) =~= since);
    additions_are_discovered(discovered_after(Set::empty(), initial), heard);
    let known = Set::<u64>::empty().union(changed_ids(initial).to_set()).union(since.to_set());
    assert forall|id: u64| known.contains(id) <==> later.peers.dom().remove(local_id).contains(
        id,
    ) by {
        if since.contains(id) {
            let i = since.index_of(id);
            assert(later.announced[i + state.announced.len()] == id);
            assert(later.announced.to_set().contains(id));
            assert(id != local_id) by {
                assert(state.announced.to_set().contains(local_id));
                let j = state.announced.index_of(local_id);
                assert(later.announced.take(state.announced.len() as int)[j] == local_id);
            }
        }
        if later.peers.contains_key(id) && id != local_id {
            assert(later.announced.to_set().contains(id));
            let i = later.announced.index_of(id);
            if i < state.announced.len() {
                assert(later.announced.take(state.announced.len() as int)[i] == id);
                assert(state.announced.to_set().contains(id));
                assert(state.peers.dom().remove(local_id).contains(id));
            } else {
                assert(since[i - state.announced.len()] == id);
            }
        }
    }
    assert(known =~= later.peers.dom().remove(local_id));
}

/// Changes that only add peers add exactly the peers that they name.
pub proof fn additions_are_added(changes: Seq<PeerChange>)
    requires
        only_adds(changes),
    ensures
        added_ids(changes) == changed_ids(changes),
    decreases changes.len(),
{
    reveal(Seq::filter);
    if changes.len() > 0 {
        let rest = changes.drop_last();
        assert forall|i: int| 0 <= i < rest.len() implies #[trigger] rest[i]
            == PeerChange::spec_add(rest[i].id) by {
            assert(rest[i] == changes[i]);
        }
        additions_are_added(rest);
        assert(changes.last() == changes[changes.len() - 1]);
        assert(added_ids(changes) =~= added_ids(rest).push(changes.last().id));
        assert(changed_ids(changes) =~= changed_ids(rest).push(changes.last().id));
    } else {
        assert(added_ids(changes) =~= changed_ids(changes));
    }
}

/// A peer makes one offer to each peer that is there when it starts to listen.
pub proof fn one_offer_for_each_peer(
    state: SignallingView,
    local_id: u64,
    initial: Seq<PeerChange>,
)
    requires
        only_adds(initial),
        names_all_but(changed_ids(initial), state.peers.dom(), local_id),
    ensures
        added_ids(initial).no_duplicates(),
        added_ids(initial).to_set() == state.peers.dom().remove(local_id),
{
    additions_are_added(initial);
}

/// A peer makes no offer to a peer that is not there yet when it starts to listen.
pub proof fn no_offer_for_absent_peers(
    state: SignallingView,
    local_id: u64,
    absent_id: u64,
    initial: Seq<PeerChange>,
)
    requires
        only_adds(initial),
        names_all_but(changed_ids(initial), state.peers.dom(), local_id),
        !state.peers.contains_key(absent_id),
    ensures
        !added_ids(initial).contains(absent_id),
{
    one_offer_for_each_peer(state, local_id, initial);
    assert(!added_ids(initial).to_set().contains(absent_id));
}

/// Of any two peers, the one that starts to listen later makes the other an offer: it was there
/// already, and is among the peers that the later one hears of first.
pub proof fn every_pair_signals<A, O, C>(
    state: SignallingView,
    events: Seq<ServerEvent>,
    earlier_id: u64,
    later_id: u64,
    initial: Seq<PeerChange>,
    peer: PeerView<A, O, C>,
)
    requires
        state.peers.contains_key(earlier_id),
        earlier_id != later_id,
        only_adds(initial),
        names_all_but(
            changed_ids(initial),
            after_events(state, events).peers.dom(),
            later_id,
        ),
        peer.first_discovery,
        peer.callbacks.create_offer,
    ensures
        peer.peers_changed(initial).queued.contains(Task::CreateOffer(earlier_id)),
{
    let later = after_events(state, events);
    peers_stay(state, events);
    one_offer_for_each_peer(later, later_id, initial);
    let ids = added_ids(initial);
    assert(later.peers.dom().remove(later_id).contains(earlier_id));
    assert(ids.to_set().contains(earlier_id));
    let i = ids.index_of(earlier_id);
    let queued = peer.peers_changed(initial).queued;
    assert(queued[peer.queued.len() + 1 + i] == Task::<A, O, C>::CreateOffer(earlier_id));
}

/// A peer makes no offers to the peers that it hears of later: those make theirs.
pub proof fn no_offers_for_later_peers<A, O, C>(peer: PeerView<A, O, C>, changes: Seq<PeerChange>)
    requires
        !peer.first_discovery,
    ensures
        peer.peers_changed(changes).queued == peer.queued.push(Task::ListenPeers),
{
    assert(peer.peers_changed(changes).queued =~= peer.queued.push(Task::ListenPeers));
}

/// Offers are created on the first discovery alone. A step leaves the tasks that were queued, and
/// queues the creation of an offer only where it handles the first that is heard of other peers.
/// Once something was heard of them this stays so, and no step queues the creation of an offer.
pub proof fn only_the_first_discovery_makes_offers<A, O, C>(
    peer: PeerView<A, O, C>,
    state: SignallingState<A, O, C>,
)
    ensures
        peer.queued.len() <= peer.stepped(state).queued.len(),
        peer.stepped(state).queued.take(peer.queued.len() as int) == peer.queued,
        peer.stepped(state).first_discovery == (peer.first_discovery && !(state is PeerListener)),
        !peer.first_discovery ==> !peer.stepped(state).first_discovery,
        forall|i: int|
            peer.queued.len() <= i < peer.stepped(state).queued.len() && (
            #[trigger] peer.stepped(state).queued[i] is CreateOffer) ==> peer.first_discovery
                && state is PeerListener,
        !peer.first_discovery ==> forall|i: int|
            peer.queued.len() <= i < peer.stepped(state).queued.len() ==> !(
            #[trigger] peer.stepped(state).queued[i] is CreateOffer),
{
    assert(peer.stepped(state).queued.take(peer.queued.len() as int) =~= peer.queued);
}

/// What changes a peer. A task that came back with an error, and an answer that the server refused,
/// change nothing.
pub enum PeerEvent<A, O, C> {
    /// What a task came back with was handled.
    Stepped(SignallingState<A, O, C>),
    /// The server has accepted an answer to a remote peer.
    AnswerSignalled(u64),
    /// Callbacks were set.
    CallbacksSet(Callbacks),
    /// The tasks that were queued were handed over, or dropped.
    QueueTaken,
}

/// The peer after an event.
pub open spec fn after_peer_event<A, O, C>(
    peer: PeerView<A, O, C>,
    event: PeerEvent<A, O, C>,
) -> PeerView<A, O, C> {
    match event {
        PeerEvent::Stepped(state) => peer.stepped(state),
        PeerEvent::AnswerSignalled(remote_id) => peer.queueing(
            seq![peer.remote_sig_cplt_task(remote_id)],
        ),
        PeerEvent::CallbacksSet(callbacks) => PeerView { callbacks, ..peer },
        PeerEvent::QueueTaken => PeerView { queued: Seq::empty(), ..peer },
    }
}

/// The peer after events.
pub open spec fn after_peer_events<A, O, C>(
    peer: PeerView<A, O, C>,
    events: Seq<PeerEvent<A, O, C>>,
) -> PeerView<A, O, C>
    decreases events.len(),
{
    if events.len() == 0 {
        peer
    } else {
        after_peer_event(after_peer_events(peer, events.drop_last()), events.last())
    }
}

/// Once a peer has heard of other peers, it never again sets out to create an offer, whatever
/// happens: what it has queued of that kind was queued before.
pub proof fn no_offers_after_the_first_discovery<A, O, C>(
    peer: PeerView<A, O, C>,
    events: Seq<PeerEvent<A, O, C>>,
)
    requires
        !peer.first_discovery,
    ensures
        !after_peer_events(peer, events).first_discovery,
        forall|task: Task<A, O, C>|
            task is CreateOffer && #[trigger] after_peer_events(peer, events).queued.contains(task)
                ==> peer.queued.contains(task),
    decreases events.len(),
{
    if events.len() > 0 {
        let before = after_peer_events(peer, events.drop_last());
        let after = after_peer_events(peer, events);
        no_offers_after_the_first_discovery(peer, events.drop_last());
        if let PeerEvent::Stepped(state) = events.last() {
            only_the_first_discovery_makes_offers(before, state);
        }
        assert forall|task: Task<A, O, C>|
            task is CreateOffer && #[trigger] after.queued.contains(task) implies peer.queued.contains(
            task,
        ) by {
            let i = after.queued.index_of(task);
            assert(after.queued[i] == task);
            assert(i < before.queued.len());
            assert(before.queued[i] == task) by {
                assert(after.queued.take(before.queued.len() as int)[i] == task);
                assert(after.queued.take(before.queued.len() as int) =~= before.queued);
            }
            assert(before.queued.contains(task));
        }
    }
}

/// How many tasks listen for peers.
pub open spec fn peer_listeners<A, O, C>(tasks: Seq<Task<A, O, C>>) -> nat {
    tasks.filter(|task: Task<A, O, C>| task is ListenPeers).len()
}

/// How many tasks listen for offers.
pub open spec fn offer_listeners<A, O, C>(tasks: Seq<Task<A, O, C>>) -> nat {
    tasks.filter(|task: Task<A, O, C>| task is ListenOffers).len()
}

/// How many tasks listen for answers.
pub open spec fn answer_listeners<A, O, C>(tasks: Seq<Task<A, O, C>>) -> nat {
    tasks.filter(|task: Task<A, O, C>| task is ListenAnswers).len()
}

/// A peer that has started is about to listen once for peers, once for offers and once for answers.
pub proof fn listeners_start_once<A, O, C>(
    client: crate::signalling::client::ClientView,
    local_id: u64,
)
    ensures
        peer_listeners(PeerView::<A, O, C>::started(client, local_id).queued) == 1,
        offer_listeners(PeerView::<A, O, C>::started(client, local_id).queued) == 1,
        answer_listeners(PeerView::<A, O, C>::started(client, local_id).queued) == 1,
{
    reveal_with_fuel(Seq::filter, 4);
    let queued = PeerView::<A, O, C>::started(client, local_id).queued;
    assert(queued.drop_last() =~= seq![Task::<A, O, C>::ListenPeers, Task::ListenOffers]);
    assert(queued.drop_last().drop_last() =~= seq![Task::<A, O, C>::ListenPeers]);
    assert(queued.drop_last().drop_last().drop_last() =~= Seq::empty());
}

/// A listener listens on: a step queues it again where what it heard is handled, once, and not
/// otherwise. So each of the three listens once at any time, as long as no error comes up.
pub proof fn listeners_listen_on<A, O, C>(peer: PeerView<A, O, C>, state: SignallingState<A, O, C>)
    ensures
        peer_listeners(peer.stepped(state).queued) == peer_listeners(peer.queued) + (
        if state is PeerListener {
            1nat
        } else {
            0nat
        }),
        offer_listeners(peer.stepped(state).queued) == offer_listeners(peer.queued) + (
        if state is OfferListener {
            1nat
        } else {
            0nat
        }),
        answer_listeners(peer.stepped(state).queued) == answer_listeners(peer.queued) + (
        if state is AnswerListener {
            1nat
        } else {
            0nat
        }),
{
    let peers = |task: Task<A, O, C>| task is ListenPeers;
    let offers = |task: Task<A, O, C>| task is ListenOffers;
    let answers = |task: Task<A, O, C>| task is ListenAnswers;
    let before = peer.queued;
    let after = peer.stepped(state).queued;
    let added = after.skip(before.len() as int);
    assert(after =~= before + added);
    Seq::filter_distributes_over_add(before, added, peers);
    Seq::filter_distributes_over_add(before, added, offers);
    Seq::filter_distributes_over_add(before, added, answers);
    match state {
        SignallingState::PeerListener(changes) => {
            let made = added.skip(1);
            assert(added =~= seq![Task::ListenPeers] + made);
            assert forall|i: int| 0 <= i < made.len() implies !(#[trigger] made[i] is ListenPeers)
                && !(made[i] is ListenOffers) && !(made[i] is ListenAnswers) by {
                assert(peer.first_discovery);
                assert(made[i] == peer.create_offer_task(added_ids(changes@)[i]));
            }
            made.lemma_all_neg_filter_empty(peers);
            made.lemma_all_neg_filter_empty(offers);
            made.lemma_all_neg_filter_empty(answers);
            filter_one(Task::<A, O, C>::ListenPeers, peers);
            filter_one(Task::<A, O, C>::ListenPeers, offers);
            filter_one(Task::<A, O, C>::ListenPeers, answers);
            Seq::filter_distributes_over_add(seq![Task::ListenPeers], made, peers);
            Seq::filter_distributes_over_add(seq![Task::ListenPeers], made, offers);
            Seq::filter_distributes_over_add(seq![Task::ListenPeers], made, answers);
        },
        SignallingState::AnswerListener(answer) => {
            filter_two(Task::ListenAnswers, peer.receive_answer_task(answer), peers);
            filter_two(Task::ListenAnswers, peer.receive_answer_task(answer), offers);
            filter_two(Task::ListenAnswers, peer.receive_answer_task(answer), answers);
            assert(added =~= seq![Task::ListenAnswers, peer.receive_answer_task(answer)]);
        },
        SignallingState::OfferListener(offer) => {
            filter_two(Task::ListenOffers, peer.receive_offer_task(offer), peers);
            filter_two(Task::ListenOffers, peer.receive_offer_task(offer), offers);
            filter_two(Task::ListenOffers, peer.receive_offer_task(offer), answers);
            assert(added =~= seq![Task::ListenOffers, peer.receive_offer_task(offer)]);
        },
        SignallingState::ReceiveAnswer(remote_id) => {
            filter_one(peer.local_sig_cplt_task(remote_id), peers);
            filter_one(peer.local_sig_cplt_task(remote_id), offers);
            filter_one(peer.local_sig_cplt_task(remote_id), answers);
            assert(added =~= seq![peer.local_sig_cplt_task(remote_id)]);
        },
        _ => {
            assert(added =~= Seq::empty());
            added.lemma_all_neg_filter_empty(peers);
            added.lemma_all_neg_filter_empty(offers);
            added.lemma_all_neg_filter_empty(answers);
        },
    }
}

/// How many of one task pass a test.
proof fn filter_one<T>(task: T, test: spec_fn(T) -> bool)
    ensures
        seq![task].filter(test).len() == if test(task) {
            1nat
        } else {
            0nat
        },
{
    reveal_with_fuel(Seq::filter, 2);
    assert(seq![task].drop_last() =~= Seq::empty());
}

/// How many of two tasks pass a test.
proof fn filter_two<T>(first: T, second: T, test: spec_fn(T) -> bool)
    ensures
        seq![first, second].filter(test).len() == (if test(first) {
            1nat
        } else {
            0nat
        }) + (if test(second) {
            1nat
        } else {
            0nat
        }),
{
    filter_one(first, test);
    filter_one(second, test);
    Seq::filter_distributes_over_add(seq![first], seq![second], test);
    assert(seq![first] + seq![second] =~= seq![first, second]);
}

/// The id that is handed out after others.
pub open spec fn nth_id(start: u64, n: nat) -> u64
    decreases n,
{
    if n == 0 {
        start
    } else {
        id_after(nth_id(start, (n - 1) as nat))
    }
}

/// Ids are handed out in order, starting over after the largest.
proof fn nth_id_counts(start: u64, n: nat)
    ensures
        nth_id(start, n) == (start + n) % 0x1_0000_0000_0000_0000,
    decreases n,
{
    if n > 0 {
        nth_id_counts(start, (n - 1) as nat);
    }
}

/// No id is handed out twice before all were handed out.
pub proof fn ids_are_distinct(start: u64, m: nat, n: nat)
    requires
        m < n <= m + u64::MAX,
    ensures
        nth_id(start, m) != nth_id(start, n),
{
    nth_id_counts(start, m);
    nth_id_counts(start, n);
}

/// The id that is handed out next is free, unless all were handed out.
pub proof fn next_id_is_free(start: u64, announced: Seq<u64>)
    requires
        announced.len() <= u64::MAX,
        forall|i: int| 0 <= i < announced.len() ==> #[trigger] announced[i] == nth_id(
            start,
            i as nat,
        ),
    ensures
        !announced.contains(nth_id(start, announced.len())),
{
    if announced.contains(nth_id(start, announced.len())) {
        let i = announced.index_of(nth_id(start, announced.len()));
        ids_are_distinct(start, i as nat, announced.len());
    }
}

/// Which of two services over one state a request came through.
pub enum Service {
    /// The service for native clients.
    Native,
    /// The service for clients that run in a browser.
    Web,
}

/// What changes the state, and the service that it came through.
pub struct ServedEvent {
    pub service: Service,
    pub event: ServerEvent,
}

/// What changes the state, in order, whichever service it came through.
pub open spec fn shared_events(served: Seq<ServedEvent>) -> Seq<ServerEvent> {
    served.map_values(|served: ServedEvent| served.event)
}

/// The state after two services have served requests, in whatever order they took turns.
pub open spec fn after_served(state: SignallingView, served: Seq<ServedEvent>) -> SignallingView
    decreases served.len(),
{
    if served.len() == 0 {
        state
    } else {
        after_event(after_served(state, served.drop_last()), served.last().event)
    }
}

/// Two services over one state are as one: what came through either has changed what both see.
pub proof fn services_share_one_state(state: SignallingView, served: Seq<ServedEvent>)
    ensures
        after_served(state, served) == after_events(state, shared_events(served)),
    decreases served.len(),
{
    if served.len() > 0 {
        services_share_one_state(state, served.drop_last());
        assert(shared_events(served).drop_last() =~= shared_events(served.drop_last()));
    }
}

/// Events can be split anywhere: what follows starts from the state that the first ones led to.
proof fn events_split(state: SignallingView, first: Seq<ServerEvent>, second: Seq<ServerEvent>)
    ensures
        after_events(state, first + second) == after_events(after_events(state, first), second),
        can_all_happen(state, first + second) <==> can_all_happen(state, first) && can_all_happen(
            after_events(state, first),
            second,
        ),
    decreases second.len(),
{
    if second.len() == 0 {
        assert(first + second =~= first);
    } else {
        events_split(state, first, second.drop_last());
        assert((first + second).drop_last() =~= first + second.drop_last());
    }
}

/// The state before a request, what the request did, and what followed.
proof fn served_split(state: SignallingView, served: Seq<ServedEvent>, i: int)
    requires
        can_all_happen(state, shared_events(served)),
        0 <= i < served.len(),
    ensures
        ({
            let before = after_served(state, served.take(i));
            let rest = shared_events(served.skip(i + 1));
            &&& can_happen(before, served[i].event)
            &&& can_all_happen(after_event(before, served[i].event), rest)
            &&& after_served(state, served) == after_events(
                after_event(before, served[i].event),
                rest,
            )
        }),
{
    let first = shared_events(served.take(i));
    let middle = seq![served[i].event];
    let rest = shared_events(served.skip(i + 1));
    services_share_one_state(state, served);
    services_share_one_state(state, served.take(i));
    assert(shared_events(served) =~= first + (middle + rest));
    events_split(state, first, middle + rest);
    let before = after_events(state, first);
    events_split(before, middle, rest);
    assert(middle.drop_last() =~= Seq::empty());
    reveal_with_fuel(after_events, 2);
    reveal_with_fuel(can_all_happen, 2);
}

/// A peer that advertised itself through either service is a peer of both: every other peer finds it
/// among the peers that it asks for or that its listener starts with, through whichever service, and
/// it is among what has been announced since any listener that was open before was opened.
pub proof fn services_share_their_peers(
    state: SignallingView,
    served: Seq<ServedEvent>,
    i: int,
    id: u64,
)
    requires
        can_all_happen(state, shared_events(served)),
        0 <= i < served.len(),
        served[i].event == ServerEvent::Advertised(id),
    ensures
        after_served(state, served).peers.contains_key(id),
        forall|ids: Seq<u64>, local_id: u64|
            local_id != id && #[trigger] names_all_but(
                ids,
                after_served(state, served).peers.dom(),
                local_id,
            ) ==> ids.contains(id),
        forall|opened: int|
            0 <= opened <= i ==> after_served(state, served).announced.skip(
                (#[trigger] after_served(state, served.take(opened))).announced.len() as int,
            ).contains(id),
{
    let before = after_served(state, served.take(i));
    let rest = shared_events(served.skip(i + 1));
    let after = after_served(state, served);
    served_split(state, served, i);
    peers_stay(before.with_peer(id), rest);
    assert(before.with_peer(id).peers.dom().contains(id));
    assert forall|ids: Seq<u64>, local_id: u64|
        local_id != id && #[trigger] names_all_but(
            ids,
            after.peers.dom(),
            local_id,
        ) implies ids.contains(id) by {
        assert(ids.to_set().contains(id));
    }
    let at = before.announced.len() as int;
    assert(after.announced[at] == id) by {
        assert(after.announced.take(at + 1)[at] == before.announced.push(id)[at]);
    }
    assert forall|opened: int| 0 <= opened <= i implies after.announced.skip(
        (#[trigger] after_served(state, served.take(opened))).announced.len() as int,
    ).contains(id) by {
        let then = after_served(state, served.take(opened));
        let since = shared_events(served.take(i).skip(opened));
        services_share_one_state(state, served.take(opened));
        services_share_one_state(state, served.take(i));
        assert(shared_events(served.take(i)) =~= shared_events(served.take(opened)) + since);
        events_split(state, shared_events(served.take(opened)), since);
        peers_stay(then, since);
        assert(after.announced.skip(then.announced.len() as int)[at - then.announced.len()] == id);
    }
}

/// An offer that was signalled through either service reaches its addressee, through whichever
/// service the addressee listens: once it has asked for as many offers as waited before, the offer
/// is next.
pub proof fn offers_cross_services(
    state: SignallingView,
    served: Seq<ServedEvent>,
    i: int,
    remote_id: u64,
    offer: Signal,
)
    requires
        can_all_happen(state, shared_events(served)),
        0 <= i < served.len(),
        served[i].event == ServerEvent::OfferSignalled(remote_id, offer),
        offers_asked_for(shared_events(served.skip(i + 1)), remote_id) == after_served(
            state,
            served.take(i),
        ).peers[remote_id].offers.len(),
    ensures
        after_served(state, served).peers.contains_key(remote_id),
        after_served(state, served).peers[remote_id].offers.len() > 0,
        after_served(state, served).peers[remote_id].offers[0] == Some(offer),
{
    let before = after_served(state, served.take(i));
    let rest = shared_events(served.skip(i + 1));
    let position = before.peers[remote_id].offers.len() as int;
    served_split(state, served, i);
    offers_keep_their_turn(before.with_offer(remote_id, offer), rest, remote_id, position);
}

/// An answer that was signalled through either service reaches its addressee, through whichever
/// service the addressee listens: once it has asked for as many answers as waited before, the answer
/// is next.
pub proof fn answers_cross_services(
    state: SignallingView,
    served: Seq<ServedEvent>,
    i: int,
    remote_id: u64,
    answer: Signal,
)
    requires
        can_all_happen(state, shared_events(served)),
        0 <= i < served.len(),
        served[i].event == ServerEvent::AnswerSignalled(remote_id, answer),
        answers_asked_for(shared_events(served.skip(i + 1)), remote_id) == after_served(
            state,
            served.take(i),
        ).peers[remote_id].answers.len(),
    ensures
        after_served(state, served).peers.contains_key(remote_id),
        after_served(state, served).peers[remote_id].answers.len() > 0,
        after_served(state, served).peers[remote_id].answers[0] == Some(answer),
{
    let before = after_served(state, served.take(i));
    let rest = shared_events(served.skip(i + 1));
    let position = before.peers[remote_id].answers.len() as int;
    served_split(state, served, i);
    answers_keep_their_turn(before.with_answer(remote_id, answer), rest, remote_id, position);
}

/// Ids never collide, whichever service they were assigned through.
pub proof fn ids_do_not_collide(
    state: SignallingView,
    served: Seq<ServedEvent>,
    i: int,
    j: int,
    earlier_id: u64,
    later_id: u64,
)
    requires
        can_all_happen(state, shared_events(served)),
        0 <= i < j < served.len(),
        served[i].event == ServerEvent::Advertised(earlier_id),
        served[j].event == ServerEvent::Advertised(later_id),
    ensures
        earlier_id != later_id,
{
    let before = served.take(j);
    served_split(state, served, j);
    assert(shared_events(served) =~= shared_events(before) + shared_events(served.skip(j)));
    events_split(state, shared_events(before), shared_events(served.skip(j)));
    services_share_their_peers(state, before, i, earlier_id);
}

} // verus!
