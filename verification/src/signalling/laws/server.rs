//! What holds of the requests that a server is sent, and of what its listeners hear.

use vstd::prelude::*;

use crate::signalling::feed::FeedError;
use crate::signalling::laws::after_event;
use crate::signalling::laws::can_happen;
use crate::signalling::laws::ServerEvent;
use crate::signalling::mailbox::Undelivered;
use crate::signalling::pb::AdvertiseReq;
use crate::signalling::pb::AdvertiseRsp;
use crate::signalling::pb::AnswerListenerReq;
use crate::signalling::pb::AnswerListenerRsp;
use crate::signalling::pb::OfferListenerReq;
use crate::signalling::pb::OfferListenerRsp;
use crate::signalling::pb::PeerDiscoverReq;
use crate::signalling::pb::PeerDiscoverRsp;
use crate::signalling::pb::PeerListenerReq;
use crate::signalling::pb::PeerListenerRsp;
use crate::signalling::pb::SignalAnswerReq;
use crate::signalling::pb::SignalAnswerRsp;
use crate::signalling::pb::SignalOfferReq;
use crate::signalling::pb::SignalOfferRsp;
use crate::signalling::server::answer_outcome;
use crate::signalling::server::changed_ids;
use crate::signalling::server::names_all_but;
use crate::signalling::server::offer_outcome;
use crate::signalling::server::peer_ids;
use crate::signalling::server::peer_listener_result;
use crate::signalling::server::AnswerListener;
use crate::signalling::server::Listeners;
use crate::signalling::server::OfferListener;
use crate::signalling::server::PeerIdGenerator;
use crate::signalling::server::PeerListener;
use crate::signalling::server::Signalling;
use crate::signalling::status::Status;

verus! {

/// Ids are handed out from zero on, one after the other. After the largest comes zero again.
pub proof fn ids_count_up(first: PeerIdGenerator, generator: &mut PeerIdGenerator, id: u64)
    requires
        call_ensures(PeerIdGenerator::new, (), first),
        call_ensures(PeerIdGenerator::generate, (generator,), id),
    ensures
        first@ == 0,
        id == old(generator)@,
        id < u64::MAX ==> final(generator)@ == id + 1,
        id == u64::MAX ==> final(generator)@ == 0,
{
}

/// The mailboxes of a new peer hold one empty message each.
pub proof fn new_mailboxes_hold_an_empty_message(listeners: Listeners)
    requires
        call_ensures(Listeners::new, (), listeners),
    ensures
        listeners.wf(),
        listeners@.offers.len() == 1,
        listeners@.offers[0] is None,
        listeners@.answers.len() == 1,
        listeners@.answers[0] is None,
{
}

/// A new server has no peers, and has announced none.
pub proof fn new_servers_have_no_peers(server: Signalling)
    requires
        call_ensures(Signalling::new, (), server) || call_ensures(
            <Signalling as Default>::default,
            (),
            server,
        ),
    ensures
        server.wf(),
        forall|id: u64| !server@.peers.contains_key(id),
        server@.announced.len() == 0,
{
}

/// At any time the peers of a server are those that it has announced, each once, and no more than
/// sixteen messages wait in a mailbox.
pub proof fn servers_have_announced_their_peers(server: Signalling)
    requires
        server.wf(),
    ensures
        forall|id: u64| #[trigger]
            server@.peers.contains_key(id) <==> server@.announced.contains(id),
        forall|i: int, j: int|
            0 <= i < j < server@.announced.len() ==> #[trigger] server@.announced[i]
                != #[trigger] server@.announced[j],
        forall|id: u64| #[trigger]
            server@.peers.contains_key(id) ==> server@.peers[id].offers.len() <= 16
                && server@.peers[id].answers.len() <= 16,
{
    server.state_is_consistent();
    assert forall|id: u64| #[trigger] server@.peers.contains_key(id) <==> server@.announced.contains(
        id,
    ) by {
        assert(server@.announced.to_set().contains(id) <==> server@.peers.dom().contains(id));
    }
}

/// A server takes any request, at any time, and each of its listeners may be asked at any time.
pub proof fn servers_take_every_request(
    server: &mut Signalling,
    generator: &mut PeerIdGenerator,
    listener: &mut PeerListener,
    offers: &OfferListener,
    answers: &AnswerListener,
    advertise: AdvertiseReq,
    discover: PeerDiscoverReq,
    offer: SignalOfferReq,
    answer: SignalAnswerReq,
    listen: (PeerListenerReq, OfferListenerReq, AnswerListenerReq),
)
    requires
        old(server).wf(),
        old(listener).feed() == old(server).feed(),
    ensures
        call_requires(Signalling::advertise, (server, advertise, generator)),
        call_requires(Signalling::peer_discover, (&*old(server), discover)),
        call_requires(Signalling::open_peer_listener, (&*old(server), listen.0)),
        call_requires(Signalling::open_offer_listener, (&*old(server), listen.1)),
        call_requires(Signalling::open_answer_listener, (&*old(server), listen.2)),
        call_requires(Signalling::signal_offer, (server, offer)),
        call_requires(Signalling::signal_answer, (server, answer)),
        call_requires(PeerListener::next, (listener, &*old(server))),
        call_requires(OfferListener::next, (offers, server)),
        call_requires(AnswerListener::next, (answers, server)),
{
}

/// A peer that advertises itself is given the next id, where no peer has it yet: it becomes a peer,
/// with one empty message in each of its mailboxes, and is announced after those before it. Where
/// the id is taken it is refused, and nothing changes. Other peers are left as they are.
pub proof fn peers_are_advertised(
    server: &mut Signalling,
    request: AdvertiseReq,
    generator: &mut PeerIdGenerator,
    response: Result<AdvertiseRsp, Status>,
)
    requires
        call_ensures(Signalling::advertise, (server, request, generator), response),
    ensures
        final(server).wf(),
        final(server).feed() == old(server).feed(),
        response is Ok <==> !old(server)@.peers.contains_key(old(generator)@),
        old(generator)@ < u64::MAX ==> final(generator)@ == old(generator)@ + 1,
        old(generator)@ == u64::MAX ==> final(generator)@ == 0,
        response matches Err(status) ==> {
            &&& status.code is Internal
            &&& status.message@ == "generated duplicate ID!"@
            &&& final(server)@ == old(server)@
        },
        response matches Ok(assigned) ==> {
            &&& assigned.local_peer is Some
            &&& assigned.local_peer->0.id == old(generator)@
            &&& final(server)@.announced == old(server)@.announced.push(old(generator)@)
            &&& final(server)@.peers.contains_key(old(generator)@)
            &&& final(server)@.peers[old(generator)@].offers.len() == 1
            &&& final(server)@.peers[old(generator)@].offers[0] is None
            &&& final(server)@.peers[old(generator)@].answers.len() == 1
            &&& final(server)@.peers[old(generator)@].answers[0] is None
            &&& can_happen(old(server)@, ServerEvent::Advertised(old(generator)@))
            &&& final(server)@ == after_event(
                old(server)@,
                ServerEvent::Advertised(old(generator)@),
            )
        },
        forall|other: u64|
            other != old(generator)@ ==> (#[trigger] final(server)@.peers.contains_key(other)
                <==> old(server)@.peers.contains_key(other)),
        forall|other: u64|
            other != old(generator)@ ==> #[trigger] final(server)@.peers[other]
                == old(server)@.peers[other],
{
}

/// Ids that name all peers but one: each of them once, and no other.
proof fn all_but_one_are_named(ids: Seq<u64>, peers: Set<u64>, local_id: u64)
    requires
        names_all_but(ids, peers, local_id),
    ensures
        forall|i: int, j: int|
            0 <= i < j < ids.len() ==> #[trigger] ids[i] != #[trigger] ids[j],
        forall|i: int|
            0 <= i < ids.len() ==> #[trigger] ids[i] != local_id && peers.contains(ids[i]),
        forall|id: u64| #[trigger] peers.contains(id) && id != local_id ==> ids.contains(id),
{
    assert forall|i: int| 0 <= i < ids.len() implies #[trigger] ids[i] != local_id && peers.contains(
        ids[i],
    ) by {
        assert(ids.to_set().contains(ids[i]));
        assert(peers.remove(local_id).contains(ids[i]));
    }
    assert forall|id: u64| #[trigger] peers.contains(id) && id != local_id implies ids.contains(
        id,
    ) by {
        assert(peers.remove(local_id).contains(id));
        assert(ids.to_set().contains(id));
    }
}

/// A peer that asks for the others is named every other peer, each once, and neither itself nor any
/// that is not there. It is refused where it does not say who it is, and there alone.
pub proof fn every_other_peer_is_named(
    server: &Signalling,
    request: PeerDiscoverReq,
    response: Result<PeerDiscoverRsp, Status>,
)
    requires
        call_ensures(Signalling::peer_discover, (server, request), response),
    ensures
        response is Ok <==> request.local_peer is Some,
        response matches Err(status) ==> status.code is InvalidArgument && status.message@
            == "missing local peer ID"@,
        response matches Ok(named) ==> {
            &&& forall|i: int, j: int|
                0 <= i < j < named.remote_peers@.len() ==> (#[trigger] named.remote_peers@[i]).id != (
                #[trigger] named.remote_peers@[j]).id
            &&& forall|i: int|
                0 <= i < named.remote_peers@.len() ==> (#[trigger] named.remote_peers@[i]).id
                    != request.local_peer->0.id && server@.peers.contains_key(
                    named.remote_peers@[i].id,
                )
            &&& forall|id: u64| #[trigger]
                server@.peers.contains_key(id) && id != request.local_peer->0.id ==> exists|i: int|
                    0 <= i < named.remote_peers@.len() && (#[trigger] named.remote_peers@[i]).id
                        == id
        },
{
    if response is Ok {
        let named = response->Ok_0.remote_peers@;
        let ids = peer_ids(named);
        let local_id = request.local_peer->0.id;
        all_but_one_are_named(ids, server@.peers.dom(), local_id);
        assert forall|i: int, j: int| 0 <= i < j < named.len() implies (#[trigger] named[i]).id != (
        #[trigger] named[j]).id by {
            assert(ids[i] != ids[j]);
        }
        assert forall|i: int| 0 <= i < named.len() implies (#[trigger] named[i]).id != local_id
            && server@.peers.contains_key(named[i].id) by {
            assert(ids[i] != local_id);
        }
        assert forall|id: u64| #[trigger]
            server@.peers.contains_key(id) && id != local_id implies exists|i: int|
            0 <= i < named.len() && (#[trigger] named[i]).id == id by {
            assert(server@.peers.dom().contains(id));
            let i = ids.index_of(id);
            assert(named[i].id == id);
        }
    }
}

/// A peer that opens a listener for changes is first told of every other peer, as an addition, each
/// once, and of no other; then of what is announced from now on. It is refused where it does not say
/// who it is, and there alone.
pub proof fn peer_listeners_start_with_every_other_peer(
    server: &Signalling,
    request: PeerListenerReq,
    response: Result<PeerListener, Status>,
)
    requires
        call_ensures(Signalling::open_peer_listener, (server, request), response),
    ensures
        response is Ok <==> request.local_peer is Some,
        response matches Err(status) ==> status.code is InvalidArgument && status.message@
            == "missing local peer ID"@,
        response matches Ok(listener) ==> {
            &&& listener.feed() == server.feed()
            &&& listener@.position == server@.announced.len()
            &&& listener@.initial is Some
            &&& forall|i: int, j: int|
                0 <= i < j < listener@.initial->0.len() ==> (#[trigger] listener@.initial->0[i]).id
                    != (#[trigger] listener@.initial->0[j]).id
            &&& forall|i: int|
                0 <= i < listener@.initial->0.len() ==> {
                    &&& (#[trigger] listener@.initial->0[i]).change == 0
                    &&& listener@.initial->0[i].id != request.local_peer->0.id
                    &&& server@.peers.contains_key(listener@.initial->0[i].id)
                }
            &&& forall|id: u64| #[trigger]
                server@.peers.contains_key(id) && id != request.local_peer->0.id ==> exists|i: int|
                    0 <= i < listener@.initial->0.len() && (#[trigger] listener@.initial->0[i]).id
                        == id
        },
{
    if response is Ok {
        let changes = response->Ok_0@.initial->0;
        let ids = changed_ids(changes);
        let local_id = request.local_peer->0.id;
        all_but_one_are_named(ids, server@.peers.dom(), local_id);
        assert forall|i: int, j: int| 0 <= i < j < changes.len() implies (#[trigger] changes[i]).id
            != (#[trigger] changes[j]).id by {
            assert(ids[i] != ids[j]);
        }
        assert forall|i: int| 0 <= i < changes.len() implies {
            &&& (#[trigger] changes[i]).change == 0
            &&& changes[i].id != local_id
            &&& server@.peers.contains_key(changes[i].id)
        } by {
            assert(ids[i] != local_id);
        }
        assert forall|id: u64| #[trigger]
            server@.peers.contains_key(id) && id != local_id implies exists|i: int|
            0 <= i < changes.len() && (#[trigger] changes[i]).id == id by {
            assert(server@.peers.dom().contains(id));
            let i = ids.index_of(id);
            assert(changes[i].id == id);
        }
    }
}

/// A listener for changes hears what it starts with first. Then it hears each announcement, in their
/// order and none twice, as an addition, as long as it is no more than sixteen behind. One that is
/// further behind hears that changes were lost, and goes on with the sixteen newest. One that has
/// heard everything hears nothing.
pub proof fn peer_listeners_hear_every_announcement(
    listener: &mut PeerListener,
    server: &Signalling,
    heard: Option<Result<PeerListenerRsp, Status>>,
)
    requires
        call_ensures(PeerListener::next, (listener, server), heard),
    ensures
        final(listener).feed() == old(listener).feed(),
        final(listener)@.initial is None,
        old(listener)@.initial matches Some(changes) ==> {
            &&& heard is Some
            &&& heard->0 is Ok
            &&& heard->0->Ok_0.peer_changes@ == changes
            &&& final(listener)@.position == old(listener)@.position
        },
        old(listener)@.initial is None && old(listener)@.position >= server@.announced.len() ==> {
            &&& heard is None
            &&& final(listener)@.position == old(listener)@.position
        },
        old(listener)@.initial is None && old(listener)@.position < server@.announced.len()
            <= old(listener)@.position + 16 ==> {
            &&& heard is Some
            &&& heard->0 is Ok
            &&& heard->0->Ok_0.peer_changes@.len() == 1
            &&& heard->0->Ok_0.peer_changes@[0].id
                == server@.announced[old(listener)@.position as int]
            &&& heard->0->Ok_0.peer_changes@[0].change == 0
            &&& final(listener)@.position == old(listener)@.position + 1
        },
        old(listener)@.initial is None && old(listener)@.position + 16 < server@.announced.len()
            ==> {
            &&& heard is Some
            &&& heard->0 is Err
            &&& heard->0->Err_0.code is DataLoss
            &&& heard->0->Err_0.message@
                == "peer listener has lagged behind. peer changes have been lost!"@
            &&& final(listener)@.position + 16 == server@.announced.len()
        },
{
}

/// A message of the feed is heard as it is. A listener that got none hears why, unless it has just
/// heard everything.
pub proof fn feed_messages_are_heard(
    received: Result<PeerListenerRsp, FeedError>,
    heard: Option<Result<PeerListenerRsp, Status>>,
)
    requires
        call_ensures(peer_listener_result, (received,), heard),
    ensures
        heard is None <==> received is Err && received->Err_0 is Empty,
        received matches Ok(message) ==> heard == Some(Ok::<PeerListenerRsp, Status>(message)),
        received is Err && received->Err_0 is Overflowed ==> {
            &&& heard->0 is Err
            &&& heard->0->Err_0.code is DataLoss
            &&& heard->0->Err_0.message@
                == "peer listener has lagged behind. peer changes have been lost!"@
        },
        received is Err && received->Err_0 is Closed ==> {
            &&& heard->0 is Err
            &&& heard->0->Err_0.code is Internal
            &&& heard->0->Err_0.message@ == "peer changes broadcast is closed!"@
        },
{
}

/// An offer is put behind the offers that wait for the peer that it is addressed to, with its sender,
/// its candidates and its description, where that peer has advertised itself and fewer than sixteen
/// messages wait. Otherwise it is refused, for the reason there is, and nothing changes. Nothing else
/// changes either way.
pub proof fn offers_are_put_into_their_mailbox(
    server: &mut Signalling,
    request: SignalOfferReq,
    response: Result<SignalOfferRsp, Status>,
)
    requires
        call_ensures(Signalling::signal_offer, (server, request), response),
    ensures
        final(server).wf(),
        final(server).feed() == old(server).feed(),
        final(server)@.announced == old(server)@.announced,
        response is Err ==> final(server)@ == old(server)@,
        response is Ok <==> {
            &&& request.answerer_peer is Some
            &&& request.offer_signal is Some
            &&& old(server)@.peers.contains_key(request.answerer_peer->0.id)
            &&& old(server)@.peers[request.answerer_peer->0.id].offers.len() < 16
        },
        request.answerer_peer is None ==> response->Err_0.code is InvalidArgument
            && response->Err_0.message@ == "missing answerer peer ID"@,
        request.answerer_peer is Some && request.offer_signal is None ==> {
            &&& response->Err_0.code is InvalidArgument
            &&& response->Err_0.message@ == "missing offer signal"@
        },
        request.answerer_peer is Some && request.offer_signal is Some && response is Err ==> {
            if old(server)@.peers.contains_key(request.answerer_peer->0.id) {
                &&& response->Err_0.code is Aborted
                &&& response->Err_0.message@ == "offer listener buffer full!"@
            } else {
                &&& response->Err_0.code is FailedPrecondition
                &&& response->Err_0.message@ == "answerer peer not advertised!"@
            }
        },
        response is Ok ==> ({
            let id = request.answerer_peer->0.id;
            let signal = request.offer_signal->0;
            let before = old(server)@.peers[id];
            let after = final(server)@.peers[id];
            &&& final(server)@.peers.contains_key(id)
            &&& after.answers == before.answers
            &&& after.offers.len() == before.offers.len() + 1
            &&& after.offers.take(before.offers.len() as int) == before.offers
            &&& after.offers.last() matches Some(waiting)
            &&& waiting.sender_id == signal.offerer_id
            &&& waiting.candidates == signal.candidates
            &&& waiting.desc == signal.offer
            &&& can_happen(old(server)@, ServerEvent::OfferSignalled(id, waiting))
            &&& final(server)@ == after_event(
                old(server)@,
                ServerEvent::OfferSignalled(id, waiting),
            )
        }),
        response is Ok ==> forall|other: u64|
            other != request.answerer_peer->0.id ==> (#[trigger] final(server)@.peers.contains_key(other)
                <==> old(server)@.peers.contains_key(other)),
        response is Ok ==> forall|other: u64|
            other != request.answerer_peer->0.id ==> #[trigger] final(server)@.peers[other]
                == old(server)@.peers[other],
{
    if response is Ok {
        let id = request.answerer_peer->0.id;
        let before = old(server)@.peers[id].offers;
        let after = final(server)@.peers[id].offers;
        assert(after.take(before.len() as int) =~= before);
    }
}

/// A peer may listen for offers that has advertised itself, and hears those that are addressed to
/// it. Any other is refused, and so is one that does not say who it is.
pub proof fn offer_listeners_are_opened(
    server: &Signalling,
    request: OfferListenerReq,
    response: Result<OfferListener, Status>,
)
    requires
        call_ensures(Signalling::open_offer_listener, (server, request), response),
    ensures
        response is Ok <==> request.local_peer is Some && server@.peers.contains_key(
            request.local_peer->0.id,
        ),
        response matches Ok(listener) ==> listener@ == request.local_peer->0.id,
        request.local_peer is None ==> response->Err_0.code is InvalidArgument
            && response->Err_0.message@ == "missing local peer ID"@,
        request.local_peer is Some && response is Err ==> response->Err_0.code is FailedPrecondition
            && response->Err_0.message@ == "listener peer not advertised!"@,
{
}

/// The offer message that has waited longest for a peer is heard first, with its sender, its
/// candidates and its description, and waits no longer. The others wait on, in their order. Nothing
/// is heard where nothing waits. Nothing else changes.
pub proof fn offers_are_heard_in_their_order(
    listener: &OfferListener,
    server: &mut Signalling,
    heard: Option<OfferListenerRsp>,
)
    requires
        call_ensures(OfferListener::next, (listener, server), heard),
    ensures
        final(server).wf(),
        final(server).feed() == old(server).feed(),
        final(server)@.announced == old(server)@.announced,
        heard is Some <==> old(server)@.peers.contains_key(listener@)
            && old(server)@.peers[listener@].offers.len() > 0,
        heard is None ==> final(server)@ == old(server)@,
        heard matches Some(message) ==> {
            let before = old(server)@.peers[listener@];
            let after = final(server)@.peers[listener@];
            &&& final(server)@.peers.contains_key(listener@)
            &&& after.answers == before.answers
            &&& before.offers == seq![before.offers[0]] + after.offers
            &&& message.offer_signal is Some <==> before.offers[0] is Some
            &&& message.offer_signal matches Some(signal) ==> {
                &&& signal.offerer_id == before.offers[0]->0.sender_id
                &&& signal.candidates == before.offers[0]->0.candidates
                &&& signal.offer == before.offers[0]->0.desc
            }
        },
        final(server)@ == after_event(old(server)@, ServerEvent::OfferTaken(listener@)),
        forall|other: u64|
            other != listener@ ==> (#[trigger] final(server)@.peers.contains_key(other)
                <==> old(server)@.peers.contains_key(other)),
        forall|other: u64|
            other != listener@ ==> #[trigger] final(server)@.peers[other]
                == old(server)@.peers[other],
{
    if heard is Some {
        let before = old(server)@.peers[listener@].offers;
        let after = final(server)@.peers[listener@].offers;
        assert(before =~= seq![before[0]] + after);
    }
}

/// An offer that was put into a mailbox is taken. One that was not is refused, for the reason there
/// is.
pub proof fn offer_outcomes_are_told(
    outcome: Result<(), Undelivered>,
    response: Result<SignalOfferRsp, Status>,
)
    requires
        call_ensures(offer_outcome, (outcome,), response),
    ensures
        response is Ok <==> outcome is Ok,
        outcome is Err && outcome->Err_0 is Full ==> response->Err_0.code is Aborted
            && response->Err_0.message@ == "offer listener buffer full!"@,
        outcome is Err && outcome->Err_0 is Disconnected ==> response->Err_0.code is Internal
            && response->Err_0.message@ == "offer listener receiver was dropped!"@,
{
}

/// An answer is put behind the answers that wait for the peer that it is addressed to, with its
/// sender, its candidates and its description, where that peer has advertised itself and fewer than
/// sixteen messages wait. Otherwise it is refused, for the reason there is, and nothing changes.
/// Nothing else changes either way.
pub proof fn answers_are_put_into_their_mailbox(
    server: &mut Signalling,
    request: SignalAnswerReq,
    response: Result<SignalAnswerRsp, Status>,
)
    requires
        call_ensures(Signalling::signal_answer, (server, request), response),
    ensures
        final(server).wf(),
        final(server).feed() == old(server).feed(),
        final(server)@.announced == old(server)@.announced,
        response is Err ==> final(server)@ == old(server)@,
        response is Ok <==> {
            &&& request.offerer_peer is Some
            &&& request.answer_signal is Some
            &&& old(server)@.peers.contains_key(request.offerer_peer->0.id)
            &&& old(server)@.peers[request.offerer_peer->0.id].answers.len() < 16
        },
        request.offerer_peer is None ==> response->Err_0.code is InvalidArgument
            && response->Err_0.message@ == "missing offerer peer ID"@,
        request.offerer_peer is Some && request.answer_signal is None ==> {
            &&& response->Err_0.code is InvalidArgument
            &&& response->Err_0.message@ == "missing answer signal"@
        },
        request.offerer_peer is Some && request.answer_signal is Some && response is Err ==> {
            if old(server)@.peers.contains_key(request.offerer_peer->0.id) {
                &&& response->Err_0.code is Aborted
                &&& response->Err_0.message@ == "answer listener buffer full!"@
            } else {
                &&& response->Err_0.code is FailedPrecondition
                &&& response->Err_0.message@ == "answerer peer not advertised!"@
            }
        },
        response is Ok ==> ({
            let id = request.offerer_peer->0.id;
            let signal = request.answer_signal->0;
            let before = old(server)@.peers[id];
            let after = final(server)@.peers[id];
            &&& final(server)@.peers.contains_key(id)
            &&& after.offers == before.offers
            &&& after.answers.len() == before.answers.len() + 1
            &&& after.answers.take(before.answers.len() as int) == before.answers
            &&& after.answers.last() matches Some(waiting)
            &&& waiting.sender_id == signal.answerer_id
            &&& waiting.candidates == signal.candidates
            &&& waiting.desc == signal.answer
            &&& can_happen(old(server)@, ServerEvent::AnswerSignalled(id, waiting))
            &&& final(server)@ == after_event(
                old(server)@,
                ServerEvent::AnswerSignalled(id, waiting),
            )
        }),
        response is Ok ==> forall|other: u64|
            other != request.offerer_peer->0.id ==> (#[trigger] final(server)@.peers.contains_key(other)
                <==> old(server)@.peers.contains_key(other)),
        response is Ok ==> forall|other: u64|
            other != request.offerer_peer->0.id ==> #[trigger] final(server)@.peers[other]
                == old(server)@.peers[other],
{
    if response is Ok {
        let id = request.offerer_peer->0.id;
        let before = old(server)@.peers[id].answers;
        let after = final(server)@.peers[id].answers;
        assert(after.take(before.len() as int) =~= before);
    }
}

/// A peer may listen for answers that has advertised itself, and hears those that are addressed to
/// it. Any other is refused, and so is one that does not say who it is.
pub proof fn answer_listeners_are_opened(
    server: &Signalling,
    request: AnswerListenerReq,
    response: Result<AnswerListener, Status>,
)
    requires
        call_ensures(Signalling::open_answer_listener, (server, request), response),
    ensures
        response is Ok <==> request.local_peer is Some && server@.peers.contains_key(
            request.local_peer->0.id,
        ),
        response matches Ok(listener) ==> listener@ == request.local_peer->0.id,
        request.local_peer is None ==> response->Err_0.code is InvalidArgument
            && response->Err_0.message@ == "missing local peer ID"@,
        request.local_peer is Some && response is Err ==> response->Err_0.code is FailedPrecondition
            && response->Err_0.message@ == "listener peer not advertised!"@,
{
}

/// The answer message that has waited longest for a peer is heard first, with its sender, its
/// candidates and its description, and waits no longer. The others wait on, in their order. Nothing
/// is heard where nothing waits. Nothing else changes.
pub proof fn answers_are_heard_in_their_order(
    listener: &AnswerListener,
    server: &mut Signalling,
    heard: Option<AnswerListenerRsp>,
)
    requires
        call_ensures(AnswerListener::next, (listener, server), heard),
    ensures
        final(server).wf(),
        final(server).feed() == old(server).feed(),
        final(server)@.announced == old(server)@.announced,
        heard is Some <==> old(server)@.peers.contains_key(listener@)
            && old(server)@.peers[listener@].answers.len() > 0,
        heard is None ==> final(server)@ == old(server)@,
        heard matches Some(message) ==> {
            let before = old(server)@.peers[listener@];
            let after = final(server)@.peers[listener@];
            &&& final(server)@.peers.contains_key(listener@)
            &&& after.offers == before.offers
            &&& before.answers == seq![before.answers[0]] + after.answers
            &&& message.answer_signal is Some <==> before.answers[0] is Some
            &&& message.answer_signal matches Some(signal) ==> {
                &&& signal.answerer_id == before.answers[0]->0.sender_id
                &&& signal.candidates == before.answers[0]->0.candidates
                &&& signal.answer == before.answers[0]->0.desc
            }
        },
        final(server)@ == after_event(old(server)@, ServerEvent::AnswerTaken(listener@)),
        forall|other: u64|
            other != listener@ ==> (#[trigger] final(server)@.peers.contains_key(other)
                <==> old(server)@.peers.contains_key(other)),
        forall|other: u64|
            other != listener@ ==> #[trigger] final(server)@.peers[other]
                == old(server)@.peers[other],
{
    if heard is Some {
        let before = old(server)@.peers[listener@].answers;
        let after = final(server)@.peers[listener@].answers;
        assert(before =~= seq![before[0]] + after);
    }
}

/// An answer that was put into a mailbox is taken. One that was not is refused, for the reason there
/// is.
pub proof fn answer_outcomes_are_told(
    outcome: Result<(), Undelivered>,
    response: Result<SignalAnswerRsp, Status>,
)
    requires
        call_ensures(answer_outcome, (outcome,), response),
    ensures
        response is Ok <==> outcome is Ok,
        outcome is Err && outcome->Err_0 is Full ==> response->Err_0.code is Aborted
            && response->Err_0.message@ == "answer listener buffer full!"@,
        outcome is Err && outcome->Err_0 is Disconnected ==> response->Err_0.code is Internal
            && response->Err_0.message@ == "answer listener receiver was dropped!"@,
{
}

} // verus!
