//! The state of a signalling server.

use just_webrtc::signalling::feed::FeedError;
use just_webrtc::signalling::mailbox::Undelivered;
use just_webrtc::signalling::pb::AdvertiseReq;
use just_webrtc::signalling::pb::AnswerListenerReq;
use just_webrtc::signalling::pb::Change;
use just_webrtc::signalling::pb::OfferListenerReq;
use just_webrtc::signalling::pb::PeerChange;
use just_webrtc::signalling::pb::PeerDiscoverReq;
use just_webrtc::signalling::pb::PeerId;
use just_webrtc::signalling::pb::PeerListenerReq;
use just_webrtc::signalling::pb::SignalAnswer;
use just_webrtc::signalling::pb::SignalAnswerReq;
use just_webrtc::signalling::pb::SignalOffer;
use just_webrtc::signalling::pb::SignalOfferReq;
use just_webrtc::signalling::server::answer_outcome;
use just_webrtc::signalling::server::offer_outcome;
use just_webrtc::signalling::server::peer_listener_result;
use just_webrtc::signalling::server::PeerIdGenerator;
use just_webrtc::signalling::server::Signalling;
use just_webrtc::signalling::status::Code;
use just_webrtc::signalling::status::Status;

fn status(code: Code, message: &str) -> Status {
    Status::new(code, message)
}

fn advertise(server: &mut Signalling, generator: &mut PeerIdGenerator) -> u64 {
    server
        .advertise(AdvertiseReq {}, generator)
        .unwrap()
        .local_peer
        .unwrap()
        .id
}

fn offer(to: u64, from: u64, text: &[u8]) -> SignalOfferReq {
    SignalOfferReq {
        answerer_peer: Some(PeerId { id: to }),
        offer_signal: Some(SignalOffer {
            offerer_id: from,
            candidates: vec![7],
            offer: text.to_vec(),
        }),
    }
}

fn answer(to: u64, from: u64, text: &[u8]) -> SignalAnswerReq {
    SignalAnswerReq {
        offerer_peer: Some(PeerId { id: to }),
        answer_signal: Some(SignalAnswer {
            answerer_id: from,
            candidates: vec![8],
            answer: text.to_vec(),
        }),
    }
}

fn local(id: u64) -> Option<PeerId> {
    Some(PeerId { id })
}

#[test]
fn ids_count_up() {
    let mut server = Signalling::new();
    let mut generator = PeerIdGenerator::new();
    assert_eq!(advertise(&mut server, &mut generator), 0);
    assert_eq!(advertise(&mut server, &mut generator), 1);
    assert_eq!(generator.generate(), 2);
    assert_eq!(advertise(&mut server, &mut generator), 3);
}

#[test]
fn a_taken_id_is_refused() {
    let mut server = Signalling::default();
    let mut first = PeerIdGenerator::new();
    let mut second = PeerIdGenerator::new();
    assert_eq!(advertise(&mut server, &mut first), 0);
    assert_eq!(
        server.advertise(AdvertiseReq {}, &mut second),
        Err(status(Code::Internal, "generated duplicate ID!"))
    );
    // the refusal has changed nothing, and the id after it is free
    assert_eq!(advertise(&mut server, &mut second), 1);
}

#[test]
fn peers_are_discovered() {
    let mut server = Signalling::new();
    let mut generator = PeerIdGenerator::new();
    for _ in 0..3 {
        advertise(&mut server, &mut generator);
    }
    let response = server.peer_discover(PeerDiscoverReq { local_peer: local(1) }).unwrap();
    let mut ids: Vec<u64> = response.remote_peers.iter().map(|peer| peer.id).collect();
    ids.sort();
    assert_eq!(ids, vec![0, 2]);
    assert_eq!(
        server.peer_discover(PeerDiscoverReq { local_peer: None }),
        Err(status(Code::InvalidArgument, "missing local peer ID"))
    );
}

#[test]
fn peer_listener_starts_with_the_peers_and_goes_on_with_announcements() {
    let mut server = Signalling::new();
    let mut generator = PeerIdGenerator::new();
    advertise(&mut server, &mut generator);
    advertise(&mut server, &mut generator);
    let mut listener =
        server.open_peer_listener(PeerListenerReq { local_peer: local(1) }).unwrap();
    let heard = listener.next(&server).unwrap().unwrap();
    assert_eq!(heard.peer_changes, vec![PeerChange::add(0)]);
    assert!(listener.next(&server).is_none());
    advertise(&mut server, &mut generator);
    advertise(&mut server, &mut generator);
    let heard = listener.next(&server).unwrap().unwrap();
    assert_eq!(heard.peer_changes, vec![PeerChange::add(2)]);
    let heard = listener.next(&server).unwrap().unwrap();
    assert_eq!(heard.peer_changes, vec![PeerChange::add(3)]);
    assert!(listener.next(&server).is_none());
    assert!(matches!(
        server.open_peer_listener(PeerListenerReq { local_peer: None }),
        Err(s) if s == status(Code::InvalidArgument, "missing local peer ID")
    ));
}

#[test]
fn a_listener_that_lags_behind_loses_changes() {
    let mut server = Signalling::new();
    let mut generator = PeerIdGenerator::new();
    advertise(&mut server, &mut generator);
    let mut listener =
        server.open_peer_listener(PeerListenerReq { local_peer: local(0) }).unwrap();
    assert!(listener.next(&server).unwrap().unwrap().peer_changes.is_empty());
    for _ in 0..18 {
        advertise(&mut server, &mut generator);
    }
    assert_eq!(
        listener.next(&server),
        Some(Err(status(
            Code::DataLoss,
            "peer listener has lagged behind. peer changes have been lost!"
        )))
    );
    // the oldest two were lost
    let heard = listener.next(&server).unwrap().unwrap();
    assert_eq!(heard.peer_changes, vec![PeerChange::add(3)]);
}

#[test]
fn a_listener_that_is_just_in_time_loses_nothing() {
    let mut server = Signalling::new();
    let mut generator = PeerIdGenerator::new();
    advertise(&mut server, &mut generator);
    let mut listener =
        server.open_peer_listener(PeerListenerReq { local_peer: local(0) }).unwrap();
    listener.next(&server);
    for _ in 0..16 {
        advertise(&mut server, &mut generator);
    }
    for id in 1..17 {
        let heard = listener.next(&server).unwrap().unwrap();
        assert_eq!(heard.peer_changes, vec![PeerChange::add(id)]);
    }
    assert!(listener.next(&server).is_none());
}

#[test]
fn peer_listener_results() {
    assert_eq!(peer_listener_result(Err(FeedError::Empty)), None);
    assert_eq!(
        peer_listener_result(Err(FeedError::Closed)),
        Some(Err(status(Code::Internal, "peer changes broadcast is closed!")))
    );
    assert_eq!(
        peer_listener_result(Err(FeedError::Overflowed(3))),
        Some(Err(status(
            Code::DataLoss,
            "peer listener has lagged behind. peer changes have been lost!"
        )))
    );
}

#[test]
fn changes_have_wire_numbers() {
    assert_eq!(PeerChange::add(9).change(), Change::PeerChangeAdd);
    assert_eq!(PeerChange::_remove(9).change(), Change::PeerChangeRemove);
    assert_eq!(PeerChange::add(9).change, 0);
    assert_eq!(PeerChange::_remove(9).change, 1);
    assert_eq!(PeerChange { id: 9, change: 5 }.change(), Change::PeerChangeAdd);
}

#[test]
fn offers_are_heard_in_order_after_an_empty_message() {
    let mut server = Signalling::new();
    let mut generator = PeerIdGenerator::new();
    advertise(&mut server, &mut generator);
    advertise(&mut server, &mut generator);
    let listener =
        server.open_offer_listener(OfferListenerReq { local_peer: local(0) }).unwrap();
    assert!(server.signal_offer(offer(0, 1, b"one")).is_ok());
    assert!(server.signal_offer(offer(0, 1, b"two")).is_ok());
    assert_eq!(listener.next(&mut server).unwrap().offer_signal, None);
    assert_eq!(
        listener.next(&mut server).unwrap().offer_signal,
        offer(0, 1, b"one").offer_signal
    );
    assert_eq!(
        listener.next(&mut server).unwrap().offer_signal,
        offer(0, 1, b"two").offer_signal
    );
    assert_eq!(listener.next(&mut server), None);
}

#[test]
fn answers_are_heard_in_order_after_an_empty_message() {
    let mut server = Signalling::new();
    let mut generator = PeerIdGenerator::new();
    advertise(&mut server, &mut generator);
    advertise(&mut server, &mut generator);
    let listener =
        server.open_answer_listener(AnswerListenerReq { local_peer: local(1) }).unwrap();
    assert!(server.signal_answer(answer(1, 0, b"one")).is_ok());
    assert!(server.signal_answer(answer(1, 0, b"two")).is_ok());
    assert_eq!(listener.next(&mut server).unwrap().answer_signal, None);
    assert_eq!(
        listener.next(&mut server).unwrap().answer_signal,
        answer(1, 0, b"one").answer_signal
    );
    assert_eq!(
        listener.next(&mut server).unwrap().answer_signal,
        answer(1, 0, b"two").answer_signal
    );
    assert_eq!(listener.next(&mut server), None);
}

#[test]
fn mailboxes_are_apart_from_each_other() {
    let mut server = Signalling::new();
    let mut generator = PeerIdGenerator::new();
    advertise(&mut server, &mut generator);
    advertise(&mut server, &mut generator);
    assert!(server.signal_offer(offer(0, 1, b"offer")).is_ok());
    let other = server.open_offer_listener(OfferListenerReq { local_peer: local(1) }).unwrap();
    assert_eq!(other.next(&mut server).unwrap().offer_signal, None);
    assert_eq!(other.next(&mut server), None);
    let answers =
        server.open_answer_listener(AnswerListenerReq { local_peer: local(0) }).unwrap();
    assert_eq!(answers.next(&mut server).unwrap().answer_signal, None);
    assert_eq!(answers.next(&mut server), None);
}

#[test]
fn requests_through_two_services_meet_in_one_state() {
    // one state and one source of ids, as two services have them between them
    let mut server = Signalling::new();
    let mut generator = PeerIdGenerator::new();
    let native = advertise(&mut server, &mut generator);
    let mut listener =
        server.open_peer_listener(PeerListenerReq { local_peer: local(native) }).unwrap();
    assert_eq!(listener.next(&server).unwrap().unwrap().peer_changes, vec![]);
    let web = advertise(&mut server, &mut generator);
    assert_ne!(native, web);
    // the native peer hears of the web peer, and the web peer finds the native peer
    let heard = listener.next(&server).unwrap().unwrap();
    assert_eq!(heard.peer_changes, vec![PeerChange::add(web)]);
    let found = server.peer_discover(PeerDiscoverReq { local_peer: local(web) }).unwrap();
    assert_eq!(found.remote_peers, vec![PeerId { id: native }]);
    // the first message of a listener is empty
    let offers =
        server.open_offer_listener(OfferListenerReq { local_peer: local(native) }).unwrap();
    assert_eq!(offers.next(&mut server).unwrap().offer_signal, None);
    server.signal_offer(offer(native, web, b"offer")).unwrap();
    let heard = offers.next(&mut server).unwrap().offer_signal.unwrap();
    assert_eq!((heard.offerer_id, heard.offer), (web, b"offer".to_vec()));
    let answers =
        server.open_answer_listener(AnswerListenerReq { local_peer: local(web) }).unwrap();
    assert_eq!(answers.next(&mut server).unwrap().answer_signal, None);
    server.signal_answer(answer(web, native, b"answer")).unwrap();
    let heard = answers.next(&mut server).unwrap().answer_signal.unwrap();
    assert_eq!((heard.answerer_id, heard.answer), (native, b"answer".to_vec()));
}

#[test]
fn listeners_of_one_peer_share_its_mailbox() {
    let mut server = Signalling::new();
    let mut generator = PeerIdGenerator::new();
    advertise(&mut server, &mut generator);
    let first = server.open_offer_listener(OfferListenerReq { local_peer: local(0) }).unwrap();
    let second = server.open_offer_listener(OfferListenerReq { local_peer: local(0) }).unwrap();
    assert!(first.next(&mut server).is_some());
    assert!(second.next(&mut server).is_none());
}

#[test]
fn a_full_offer_mailbox_refuses() {
    let mut server = Signalling::new();
    let mut generator = PeerIdGenerator::new();
    advertise(&mut server, &mut generator);
    // one place is taken by the empty message
    for _ in 0..15 {
        assert!(server.signal_offer(offer(0, 1, b"x")).is_ok());
    }
    assert_eq!(
        server.signal_offer(offer(0, 1, b"x")),
        Err(status(Code::Aborted, "offer listener buffer full!"))
    );
    let listener =
        server.open_offer_listener(OfferListenerReq { local_peer: local(0) }).unwrap();
    assert!(listener.next(&mut server).is_some());
    assert!(server.signal_offer(offer(0, 1, b"y")).is_ok());
}

#[test]
fn a_full_answer_mailbox_refuses() {
    let mut server = Signalling::new();
    let mut generator = PeerIdGenerator::new();
    advertise(&mut server, &mut generator);
    for _ in 0..15 {
        assert!(server.signal_answer(answer(0, 1, b"x")).is_ok());
    }
    assert_eq!(
        server.signal_answer(answer(0, 1, b"x")),
        Err(status(Code::Aborted, "answer listener buffer full!"))
    );
}

#[test]
fn incomplete_and_misdirected_signals_are_refused() {
    let mut server = Signalling::new();
    let mut generator = PeerIdGenerator::new();
    advertise(&mut server, &mut generator);
    assert_eq!(
        server.signal_offer(SignalOfferReq { answerer_peer: None, offer_signal: None }),
        Err(status(Code::InvalidArgument, "missing answerer peer ID"))
    );
    assert_eq!(
        server.signal_offer(SignalOfferReq { answerer_peer: local(0), offer_signal: None }),
        Err(status(Code::InvalidArgument, "missing offer signal"))
    );
    assert_eq!(
        server.signal_offer(offer(4, 0, b"x")),
        Err(status(Code::FailedPrecondition, "answerer peer not advertised!"))
    );
    assert_eq!(
        server.signal_answer(SignalAnswerReq { offerer_peer: None, answer_signal: None }),
        Err(status(Code::InvalidArgument, "missing offerer peer ID"))
    );
    assert_eq!(
        server.signal_answer(SignalAnswerReq { offerer_peer: local(0), answer_signal: None }),
        Err(status(Code::InvalidArgument, "missing answer signal"))
    );
    assert_eq!(
        server.signal_answer(answer(4, 0, b"x")),
        Err(status(Code::FailedPrecondition, "answerer peer not advertised!"))
    );
}

#[test]
fn listeners_of_unknown_peers_are_refused() {
    let server = Signalling::new();
    assert_eq!(
        server.open_offer_listener(OfferListenerReq { local_peer: None }).unwrap_err(),
        status(Code::InvalidArgument, "missing local peer ID")
    );
    assert_eq!(
        server.open_offer_listener(OfferListenerReq { local_peer: local(0) }).unwrap_err(),
        status(Code::FailedPrecondition, "listener peer not advertised!")
    );
    assert_eq!(
        server.open_answer_listener(AnswerListenerReq { local_peer: None }).unwrap_err(),
        status(Code::InvalidArgument, "missing local peer ID")
    );
    assert_eq!(
        server.open_answer_listener(AnswerListenerReq { local_peer: local(0) }).unwrap_err(),
        status(Code::FailedPrecondition, "listener peer not advertised!")
    );
}

#[test]
fn outcomes_of_a_dropped_mailbox() {
    assert_eq!(
        offer_outcome(Err(Undelivered::Disconnected)),
        Err(status(Code::Internal, "offer listener receiver was dropped!"))
    );
    assert_eq!(
        answer_outcome(Err(Undelivered::Disconnected)),
        Err(status(Code::Internal, "answer listener receiver was dropped!"))
    );
    assert!(offer_outcome(Ok(())).is_ok());
    assert!(answer_outcome(Ok(())).is_ok());
}
