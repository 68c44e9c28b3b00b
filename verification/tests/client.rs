//! The client of a signalling server: its settings, its requests, and the state machine of a peer.

use std::time::Duration;

use just_webrtc::signalling::client::ClientError;
use just_webrtc::signalling::client::RtcSignallingClient;
use just_webrtc::signalling::client::RtcSignallingClientBuilder;
use just_webrtc::signalling::codec::EncodedPayload;
use just_webrtc::signalling::codec::SignalPayload;
use just_webrtc::signalling::pb::AdvertiseRsp;
use just_webrtc::signalling::pb::AnswerListenerRsp;
use just_webrtc::signalling::pb::OfferListenerRsp;
use just_webrtc::signalling::pb::PeerChange;
use just_webrtc::signalling::pb::PeerDiscoverRsp;
use just_webrtc::signalling::pb::PeerId;
use just_webrtc::signalling::pb::PeerListenerRsp;
use just_webrtc::signalling::pb::SignalAnswer;
use just_webrtc::signalling::pb::SignalAnswerRsp;
use just_webrtc::signalling::pb::SignalOffer;
use just_webrtc::signalling::pb::SignalOfferRsp;
use just_webrtc::signalling::peer::answer_listener_task;
use just_webrtc::signalling::peer::offer_listener_task;
use just_webrtc::signalling::peer::peer_listener_task;
use just_webrtc::signalling::peer::ListenerRequest;
use just_webrtc::signalling::peer::RtcSignallingPeer;
use just_webrtc::signalling::peer::SignalSet;
use just_webrtc::signalling::peer::SignallingState;
use just_webrtc::signalling::peer::StepAction;
use just_webrtc::signalling::peer::Task;
use just_webrtc::signalling::status::Code;
use just_webrtc::signalling::status::Status;

type Peer = RtcSignallingPeer<String, String, String>;
type State = SignallingState<String, String, String>;

fn client() -> RtcSignallingClient {
    RtcSignallingClientBuilder::default().build("[::1]:10000".to_string()).unwrap()
}

fn timeout_text(timeout: Duration) -> String {
    let client = RtcSignallingClientBuilder::default()
        .set_timeout(timeout)
        .build("localhost".to_string())
        .unwrap();
    client.advertise().grpc_timeout
}

fn set(text: &str, candidates: &str, remote_id: u64) -> SignalSet<String, String> {
    SignalSet { desc: text.to_string(), candidates: candidates.to_string(), remote_id }
}

#[test]
fn text_is_encoded_behind_its_length() {
    let bytes = "hi".to_string().encode().unwrap();
    assert_eq!(bytes, vec![2, 0, 0, 0, 0, 0, 0, 0, b'h', b'i']);
    assert_eq!(String::decode(bytes.clone()).unwrap(), "hi");
    let bytes = "\u{e9}".to_string().encode().unwrap();
    assert_eq!(bytes, vec![2, 0, 0, 0, 0, 0, 0, 0, 0xc3, 0xa9]);
    assert_eq!(String::decode(bytes.clone()).unwrap(), "\u{e9}");
    assert_eq!(String::new().encode().unwrap(), vec![0; 8]);
}

#[test]
fn bytes_that_carry_no_text() {
    // too short for a length
    assert!(String::decode(vec![1, 0, 0]).is_err());
    // shorter than announced
    assert!(String::decode(vec![2, 0, 0, 0, 0, 0, 0, 0, b'h']).is_err());
    // a length that cannot be had
    assert!(String::decode(vec![0xff; 16]).is_err());
    // not UTF-8
    assert!(String::decode(vec![1, 0, 0, 0, 0, 0, 0, 0, 0xff]).is_err());
    // what follows is ignored
    assert_eq!(String::decode(vec![1, 0, 0, 0, 0, 0, 0, 0, b'h', b'i']).unwrap(), "h");
}

#[test]
fn encoded_payloads_are_carried_as_they_are() {
    let payload = EncodedPayload { bytes: vec![3, 1, 2] };
    let bytes = payload.clone().encode().unwrap();
    assert_eq!(bytes, vec![3, 1, 2]);
    assert_eq!(EncodedPayload::decode(bytes).unwrap(), payload);
}

#[test]
fn timeouts_take_the_finest_unit_that_fits() {
    assert_eq!(client().advertise().grpc_timeout, "10000000u");
    assert_eq!(timeout_text(Duration::from_nanos(99_999_999)), "99999999n");
    assert_eq!(timeout_text(Duration::from_nanos(100_000_000)), "100000u");
    assert_eq!(timeout_text(Duration::from_secs(100)), "100000m");
    assert_eq!(timeout_text(Duration::from_secs(3_600)), "3600000m");
    assert_eq!(timeout_text(Duration::from_secs(100_000)), "100000S");
    assert_eq!(timeout_text(Duration::from_secs(100_000_000)), "1666666M");
    assert_eq!(timeout_text(Duration::from_secs(6_000_000_000)), "1666666H");
    assert_eq!(timeout_text(Duration::from_secs(0)), "0n");
}

#[test]
fn timeouts_that_do_not_fit() {
    let fits = |secs: u64| {
        RtcSignallingClientBuilder::default()
            .set_timeout(Duration::from_secs(secs))
            .timeout_fits()
    };
    let too_long =
        RtcSignallingClientBuilder::default().set_timeout(Duration::from_secs(360_000_000_000));
    assert!(!too_long.can_build());
    assert!(too_long.try_build("localhost".to_string()).is_none());
    assert!(too_long.try_build_web("localhost".to_string()).is_none());
    let usual = RtcSignallingClientBuilder::default();
    assert_eq!(usual.try_build("localhost".to_string()).unwrap().unwrap().uri(), "http://localhost");
    assert_eq!(usual.try_build_web("localhost".to_string()).unwrap().uri(), "http://localhost");
    assert!(fits(10));
    assert!(fits(359_999_999_999));
    assert!(!fits(360_000_000_000));
}

#[test]
fn clients_without_tls() {
    let client = client();
    assert_eq!(client.uri(), "http://[::1]:10000");
    assert!(client.tls().is_none());
    assert_eq!(client.connect_timeout(), Duration::from_secs(10));
    let copy = client.duplicate();
    assert_eq!(copy.uri(), "http://[::1]:10000");
}

#[test]
fn clients_with_tls() {
    let client = RtcSignallingClientBuilder::default()
        .set_tls("example.com".to_string(), String::new())
        .set_timeout(Duration::from_secs(3))
        .build("example.com:443".to_string())
        .unwrap();
    assert_eq!(client.uri(), "https://example.com:443");
    let tls = client.tls().as_ref().unwrap();
    assert_eq!(tls.domain, "example.com");
    assert_eq!(tls.ca_pem, "");
    assert_eq!(client.connect_timeout(), Duration::from_secs(3));
    assert_eq!(client.duplicate().tls().as_ref().unwrap().domain, "example.com");
}

#[test]
fn clients_are_refused_a_bad_address() {
    let built = RtcSignallingClientBuilder::default().build("no spaces allowed".to_string());
    assert!(matches!(built, Err(ClientError::InvalidUrl)));
    let built = RtcSignallingClientBuilder::default()
        .set_tls("example.com".to_string(), String::new())
        .build("no spaces allowed".to_string());
    assert!(matches!(built, Err(ClientError::InvalidUrl)));
}

#[test]
fn clients_are_refused_a_bad_domain_or_certificate() {
    let built = RtcSignallingClientBuilder::default()
        .set_tls("no spaces allowed".to_string(), String::new())
        .build("localhost".to_string());
    assert!(matches!(built, Err(ClientError::TonicTransport(_))));
    let pem = "-----BEGIN CERTIFICATE-----\nAAAA\n-----END CERTIFICATE-----\n";
    let built = RtcSignallingClientBuilder::default()
        .set_tls("example.com".to_string(), pem.to_string())
        .build("localhost".to_string());
    assert!(matches!(built, Err(ClientError::TonicTransport(_))));
}

#[test]
fn clients_in_a_browser() {
    let builder = RtcSignallingClientBuilder::default();
    assert_eq!(builder.build_web("localhost".to_string()).uri(), "http://localhost");
    let builder = builder.set_tls("ignored domain".to_string(), "ignored".to_string());
    let client = builder.build_web("localhost".to_string());
    assert_eq!(client.uri(), "https://localhost");
    assert!(client.tls().is_none());
}

#[test]
fn requests_carry_the_id_and_the_timeout() {
    let client = client();
    assert_eq!(client._peer_discover(3).message.local_peer, Some(PeerId { id: 3 }));
    assert_eq!(client.open_peer_listener(3).message.local_peer, Some(PeerId { id: 3 }));
    assert_eq!(client.open_offer_listener(3).message.local_peer, Some(PeerId { id: 3 }));
    assert_eq!(client.open_answer_listener(3).message.local_peer, Some(PeerId { id: 3 }));
    assert_eq!(client.open_answer_listener(3).grpc_timeout, "10000000u");
    let ids = RtcSignallingClient::_peers_discovered(PeerDiscoverRsp {
        remote_peers: vec![PeerId { id: 5 }, PeerId { id: 4 }],
    });
    assert_eq!(ids, vec![5, 4]);
}

#[test]
fn starting_a_peer_passes_refusals_on() {
    let client = client();
    let refusal = Status::new(Code::Unavailable, "no");
    assert!(matches!(
        client.peer_advertised(Err(refusal.clone())),
        Err(ClientError::TonicStatus(status)) if status == refusal
    ));
    let request = client
        .peer_advertised(Ok(AdvertiseRsp { local_peer: Some(PeerId { id: 7 }) }))
        .unwrap();
    assert!(matches!(&request, ListenerRequest::Peers(7, _)));
    let outcome = client.listener_opened::<String, String, String>(request, Err(refusal.clone()));
    assert!(matches!(outcome, Err(ClientError::TonicStatus(status)) if status == refusal));
}

#[test]
fn signals_are_encoded() {
    let client = client();
    let offer = client
        .signal_offer(1, 2, "offer".to_string(), "candidates".to_string())
        .unwrap();
    assert_eq!(offer.message.answerer_peer, Some(PeerId { id: 2 }));
    let signal = offer.message.offer_signal.unwrap();
    assert_eq!(signal.offerer_id, 1);
    assert_eq!(signal.offer, "offer".to_string().encode().unwrap());
    assert_eq!(signal.candidates, "candidates".to_string().encode().unwrap());
    let answer = client
        .signal_answer(2, 1, "answer".to_string(), "candidates".to_string())
        .unwrap();
    assert_eq!(answer.message.offerer_peer, Some(PeerId { id: 1 }));
    let signal = answer.message.answer_signal.unwrap();
    assert_eq!(signal.answerer_id, 2);
    assert_eq!(signal.answer, "answer".to_string().encode().unwrap());
}

#[test]
fn peer_listener_tasks() {
    let changes = vec![PeerChange::add(4)];
    let state: Result<State, ClientError> =
        peer_listener_task(Ok(Some(PeerListenerRsp { peer_changes: changes.clone() })));
    assert!(matches!(state, Ok(State::PeerListener(heard)) if heard == changes));
    let state: Result<State, ClientError> = peer_listener_task(Ok(None));
    assert!(matches!(state, Err(ClientError::ListenerClosed)));
    let lost = Status::new(Code::DataLoss, "lost");
    let state: Result<State, ClientError> = peer_listener_task(Err(lost.clone()));
    assert!(matches!(state, Err(ClientError::TonicStatus(status)) if status == lost));
}

#[test]
fn offer_listener_tasks() {
    let offer = |offer: Vec<u8>, candidates: Vec<u8>| {
        offer_listener_task::<String, String, String>(Ok(Some(OfferListenerRsp {
            offer_signal: Some(SignalOffer { offerer_id: 6, candidates, offer }),
        })))
    };
    let text = |text: &str| text.to_string().encode().unwrap();
    match offer(text("o"), text("c")) {
        Some(Ok(State::OfferListener(set))) => {
            assert_eq!(set.desc, "o");
            assert_eq!(set.candidates, "c");
            assert_eq!(set.remote_id, 6);
        }
        other => panic!("{other:?}"),
    }
    assert!(matches!(offer(vec![1], text("c")), Some(Err(ClientError::Bincode(_)))));
    assert!(matches!(offer(text("o"), vec![1]), Some(Err(ClientError::Bincode(_)))));
    let empty = Ok(Some(OfferListenerRsp { offer_signal: None }));
    assert!(offer_listener_task::<String, String, String>(empty).is_none());
    assert!(matches!(
        offer_listener_task::<String, String, String>(Ok(None)),
        Some(Err(ClientError::ListenerClosed))
    ));
    let gone = Status::new(Code::Unavailable, "gone");
    assert!(matches!(
        offer_listener_task::<String, String, String>(Err(gone.clone())),
        Some(Err(ClientError::TonicStatus(status))) if status == gone
    ));
}

#[test]
fn answer_listener_tasks() {
    let answer = |answer: Vec<u8>, candidates: Vec<u8>| {
        answer_listener_task::<String, String, String>(Ok(Some(AnswerListenerRsp {
            answer_signal: Some(SignalAnswer { answerer_id: 6, candidates, answer }),
        })))
    };
    let text = |text: &str| text.to_string().encode().unwrap();
    match answer(text("a"), text("c")) {
        Some(Ok(State::AnswerListener(set))) => {
            assert_eq!(set.desc, "a");
            assert_eq!(set.candidates, "c");
            assert_eq!(set.remote_id, 6);
        }
        other => panic!("{other:?}"),
    }
    assert!(matches!(answer(vec![1], text("c")), Some(Err(ClientError::Bincode(_)))));
    assert!(matches!(answer(text("a"), vec![1]), Some(Err(ClientError::Bincode(_)))));
    let empty = Ok(Some(AnswerListenerRsp { answer_signal: None }));
    assert!(answer_listener_task::<String, String, String>(empty).is_none());
    assert!(matches!(
        answer_listener_task::<String, String, String>(Ok(None)),
        Some(Err(ClientError::ListenerClosed))
    ));
}

#[test]
fn a_new_peer_listens() {
    let mut peer = Peer::new(client(), 3);
    assert_eq!(peer.local_id(), 3);
    assert!(peer.discovered_peers().is_empty());
    let queued = peer.take_queued();
    assert!(matches!(
        queued.as_slice(),
        [Task::ListenPeers, Task::ListenOffers, Task::ListenAnswers]
    ));
    assert!(peer.take_queued().is_empty());
}

#[test]
fn a_closed_peer_starts_nothing() {
    let mut peer = Peer::new(client(), 3);
    peer.close().unwrap();
    assert!(peer.take_queued().is_empty());
    assert_eq!(peer.local_id(), 3);
}

#[test]
fn without_callbacks_offers_wait_and_completions_resolve() {
    let mut peer = Peer::new(client(), 0);
    peer.take_queued();
    peer.step(Ok(State::PeerListener(vec![PeerChange::add(1)]))).unwrap();
    assert!(matches!(peer.take_queued().as_slice(), [Task::ListenPeers, Task::Pending]));
    peer.step(Ok(State::OfferListener(set("o", "c", 1)))).unwrap();
    assert!(matches!(peer.take_queued().as_slice(), [Task::ListenOffers, Task::Pending]));
    peer.step(Ok(State::AnswerListener(set("a", "c", 1)))).unwrap();
    assert!(matches!(
        peer.take_queued().as_slice(),
        [Task::ListenAnswers, Task::Resolved(State::ReceiveAnswer(1))]
    ));
    peer.step(Ok(State::ReceiveAnswer(1))).unwrap();
    assert!(matches!(
        peer.take_queued().as_slice(),
        [Task::Resolved(State::LocalSigCplt(1))]
    ));
    peer.answer_signalled(1, Ok(SignalAnswerRsp {})).unwrap();
    assert!(matches!(
        peer.take_queued().as_slice(),
        [Task::Resolved(State::RemoteSigCplt(1))]
    ));
}

#[test]
fn with_callbacks_tasks_call_back() {
    let mut peer = Peer::new(client(), 0);
    peer.set_on_create_offer()
        .set_on_receive_answer()
        .set_on_local_sig_cplt()
        .set_on_receive_offer()
        .set_on_remote_sig_cplt();
    peer.take_queued();
    peer.step(Ok(State::PeerListener(vec![
        PeerChange::add(1),
        PeerChange::_remove(1),
        PeerChange::add(2),
    ])))
    .unwrap();
    assert!(matches!(
        peer.take_queued().as_slice(),
        [Task::ListenPeers, Task::CreateOffer(1), Task::CreateOffer(2)]
    ));
    assert_eq!(peer.discovered_peers().iter().copied().collect::<Vec<u64>>(), vec![2]);
    // offers are only created on the first discovery
    peer.step(Ok(State::PeerListener(vec![PeerChange::add(3)]))).unwrap();
    assert!(matches!(peer.take_queued().as_slice(), [Task::ListenPeers]));
    assert_eq!(peer.discovered_peers().iter().copied().collect::<Vec<u64>>(), vec![2, 3]);
    peer.step(Ok(State::AnswerListener(set("a", "c", 1)))).unwrap();
    assert!(matches!(
        peer.take_queued().as_slice(),
        [Task::ListenAnswers, Task::ReceiveAnswer(answer)] if answer.desc == "a"
    ));
    peer.step(Ok(State::ReceiveAnswer(1))).unwrap();
    assert!(matches!(peer.take_queued().as_slice(), [Task::LocalSigCplt(1)]));
    peer.step(Ok(State::OfferListener(set("o", "c", 1)))).unwrap();
    assert!(matches!(
        peer.take_queued().as_slice(),
        [Task::ListenOffers, Task::ReceiveOffer(offer)] if offer.candidates == "c"
    ));
    peer.answer_signalled(1, Ok(SignalAnswerRsp {})).unwrap();
    assert!(matches!(peer.take_queued().as_slice(), [Task::RemoteSigCplt(1)]));
}

#[test]
fn signals_are_sent_by_steps() {
    let mut peer = Peer::new(client(), 9);
    peer.take_queued();
    match peer.step(Ok(State::CreateOffer(set("o", "c", 4)))).unwrap() {
        StepAction::SignalOffer(4, request) => {
            assert_eq!(request.message.answerer_peer, Some(PeerId { id: 4 }));
            assert_eq!(request.message.offer_signal.unwrap().offerer_id, 9);
            assert_eq!(request.grpc_timeout, "10000000u");
        }
        other => panic!("{other:?}"),
    }
    match peer.step(Ok(State::ReceiveOffer(set("a", "c", 4)))).unwrap() {
        StepAction::SignalAnswer(4, request) => {
            assert_eq!(request.message.offerer_peer, Some(PeerId { id: 4 }));
            assert_eq!(request.message.answer_signal.unwrap().answerer_id, 9);
        }
        other => panic!("{other:?}"),
    }
    assert!(matches!(peer.step(Ok(State::LocalSigCplt(4))), Ok(StepAction::Done)));
    assert!(matches!(peer.step(Ok(State::RemoteSigCplt(4))), Ok(StepAction::Done)));
    peer.offer_signalled(4, Ok(SignalOfferRsp {})).unwrap();
    assert!(peer.take_queued().is_empty());
}

#[test]
fn errors_are_passed_on_and_change_nothing() {
    let mut peer = Peer::new(client(), 0);
    peer.take_queued();
    assert!(matches!(
        peer.step(Err(ClientError::ListenerClosed)),
        Err(ClientError::ListenerClosed)
    ));
    assert!(matches!(
        peer.step(Err(ClientError::from(anyhow::Error::msg("callback")))),
        Err(ClientError::ExternalFn(error)) if error.to_string() == "callback"
    ));
    let full = Status::new(Code::Aborted, "full");
    assert!(matches!(
        peer.offer_signalled(1, Err(full.clone())),
        Err(ClientError::TonicStatus(status)) if status == full
    ));
    assert!(matches!(
        peer.answer_signalled(1, Err(full.clone())),
        Err(ClientError::TonicStatus(status)) if status == full
    ));
    assert!(peer.take_queued().is_empty());
}

#[test]
fn client_errors_say_what_happened() {
    let said = |error: ClientError| error.message();
    assert_eq!(
        said(ClientError::PreExistingPeerConnection),
        Some("Pre-existing connection with peer!".to_string())
    );
    assert_eq!(
        said(ClientError::ListenerClosed),
        Some("Listener closed unexpectedly!".to_string())
    );
    assert_eq!(said(ClientError::ListenerUnavailable), Some("Listener unavailable!".to_string()));
    assert_eq!(said(ClientError::InvalidUrl), Some("Invalid URL".to_string()));
    assert_eq!(said(ClientError::from(Status::new(Code::Aborted, "full"))), None);
    assert_eq!(said(ClientError::from(anyhow::Error::msg("callback"))), None);
}

#[test]
fn once_peers_were_heard_of_no_offers_are_created() {
    let mut peer = Peer::new(client(), 0);
    peer.set_on_create_offer();
    peer.step(Ok(State::PeerListener(vec![PeerChange::add(1)]))).unwrap();
    peer.take_queued();
    peer.step(Ok(State::OfferListener(set("o", "c", 1)))).unwrap();
    peer.step(Ok(State::AnswerListener(set("a", "c", 1)))).unwrap();
    peer.step(Ok(State::ReceiveAnswer(1))).unwrap();
    peer.step(Ok(State::PeerListener(vec![PeerChange::add(2)]))).unwrap();
    peer.answer_signalled(1, Ok(SignalAnswerRsp {})).unwrap();
    peer.step(Ok(State::PeerListener(vec![PeerChange::add(3), PeerChange::add(4)]))).unwrap();
    assert!(peer.take_queued().iter().all(|task| !matches!(task, Task::CreateOffer(_))));
}
