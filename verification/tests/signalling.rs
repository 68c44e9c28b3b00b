//! Peers that signal through a server, from their start to the end of signalling.

use just_webrtc::signalling::client::ClientResult;
use just_webrtc::signalling::client::RtcSignallingClientBuilder;
use just_webrtc::signalling::pb::PeerChange;
use just_webrtc::signalling::peer::answer_listener_task;
use just_webrtc::signalling::peer::offer_listener_task;
use just_webrtc::signalling::peer::peer_listener_task;
use just_webrtc::signalling::peer::ListenerRequest;
use just_webrtc::signalling::peer::RtcSignallingPeer;
use just_webrtc::signalling::peer::SignalSet;
use just_webrtc::signalling::peer::SignallingState;
use just_webrtc::signalling::peer::Starting;
use just_webrtc::signalling::peer::StepAction;
use just_webrtc::signalling::peer::Task;
use just_webrtc::signalling::serve::DEFAULT_NATIVE_SERVER_ADDR;
use just_webrtc::signalling::server::AnswerListener;
use just_webrtc::signalling::server::OfferListener;
use just_webrtc::signalling::server::PeerIdGenerator;
use just_webrtc::signalling::server::PeerListener;
use just_webrtc::signalling::server::Signalling;

const PHONY_OFFER: &str = "offer";
const PHONY_OFFERER_CANDIDATES: &str = "offerer candidates";
const PHONY_ANSWER: &str = "answer";
const PHONY_ANSWER_CANDIDATES: &str = "answerer candidates";

type State = SignallingState<String, String, String>;

/// A peer with its listeners, and what has become of its tasks.
struct Driver {
    peer: RtcSignallingPeer<String, String, String>,
    peers: PeerListener,
    offers: OfferListener,
    answers: AnswerListener,
    outstanding: Vec<Task<String, String, String>>,
    heard_changes: Vec<PeerChange>,
    offers_sent: Vec<u64>,
    local_complete: Vec<u64>,
    remote_complete: Vec<u64>,
}

impl Driver {
    /// Start a peer.
    fn start(server: &mut Signalling, generator: &mut PeerIdGenerator) -> Driver {
        let client = RtcSignallingClientBuilder::default()
            .build(DEFAULT_NATIVE_SERVER_ADDR.to_string())
            .unwrap();
        let advertise = client.start_peer();
        let mut peers = None;
        let mut offers = None;
        let mut answers = None;
        let mut next = client
            .peer_advertised(server.advertise(advertise.message, generator))
            .unwrap();
        let mut peer = loop {
            let opened = match &next {
                ListenerRequest::Peers(_, request) => {
                    peers = Some(server.open_peer_listener(request.message).unwrap());
                    Ok(())
                }
                ListenerRequest::Offers(_, request) => {
                    offers = Some(server.open_offer_listener(request.message).unwrap());
                    Ok(())
                }
                ListenerRequest::Answers(_, request) => {
                    answers = Some(server.open_answer_listener(request.message).unwrap());
                    Ok(())
                }
            };
            match client.listener_opened(next, opened).unwrap() {
                Starting::OpenListener(request) => next = request,
                Starting::Started(peer) => break peer,
            }
        };
        peer.set_on_create_offer()
            .set_on_receive_answer()
            .set_on_local_sig_cplt()
            .set_on_receive_offer()
            .set_on_remote_sig_cplt();
        Driver {
            peer,
            peers: peers.unwrap(),
            offers: offers.unwrap(),
            answers: answers.unwrap(),
            outstanding: Vec::new(),
            heard_changes: Vec::new(),
            offers_sent: Vec::new(),
            local_complete: Vec::new(),
            remote_complete: Vec::new(),
        }
    }

    /// What a task comes back with, if it has anything to come back with yet.
    fn complete(
        &mut self,
        server: &mut Signalling,
        task: Task<String, String, String>,
    ) -> Result<ClientResult<State>, Task<String, String, String>> {
        match task {
            Task::ListenPeers => match self.peers.next(server) {
                Some(Ok(message)) => {
                    self.heard_changes.extend(message.peer_changes.iter());
                    Ok(peer_listener_task(Ok(Some(message))))
                }
                Some(Err(status)) => Ok(peer_listener_task(Err(status))),
                None => Err(Task::ListenPeers),
            },
            Task::ListenOffers => match self.offers.next(server) {
                Some(message) => {
                    offer_listener_task(Ok(Some(message))).ok_or(Task::ListenOffers)
                }
                None => Err(Task::ListenOffers),
            },
            Task::ListenAnswers => match self.answers.next(server) {
                Some(message) => {
                    answer_listener_task(Ok(Some(message))).ok_or(Task::ListenAnswers)
                }
                None => Err(Task::ListenAnswers),
            },
            Task::CreateOffer(remote_id) => Ok(Ok(State::CreateOffer(SignalSet {
                desc: PHONY_OFFER.to_string(),
                candidates: PHONY_OFFERER_CANDIDATES.to_string(),
                remote_id,
            }))),
            Task::ReceiveAnswer(answer_set) => {
                assert_eq!(answer_set.desc, PHONY_ANSWER);
                assert_eq!(answer_set.candidates, PHONY_ANSWER_CANDIDATES);
                Ok(Ok(State::ReceiveAnswer(answer_set.remote_id)))
            }
            Task::LocalSigCplt(remote_id) => {
                self.local_complete.push(remote_id);
                Ok(Ok(State::LocalSigCplt(remote_id)))
            }
            Task::ReceiveOffer(offer_set) => {
                assert_eq!(offer_set.desc, PHONY_OFFER);
                assert_eq!(offer_set.candidates, PHONY_OFFERER_CANDIDATES);
                Ok(Ok(State::ReceiveOffer(SignalSet {
                    desc: PHONY_ANSWER.to_string(),
                    candidates: PHONY_ANSWER_CANDIDATES.to_string(),
                    remote_id: offer_set.remote_id,
                })))
            }
            Task::RemoteSigCplt(remote_id) => {
                self.remote_complete.push(remote_id);
                Ok(Ok(State::RemoteSigCplt(remote_id)))
            }
            Task::Resolved(state) => Ok(Ok(state)),
            Task::Pending => Err(Task::Pending),
        }
    }

    /// Step once for each task that can come back. Says whether there was one.
    fn run(&mut self, server: &mut Signalling) -> bool {
        let mut progress = false;
        let mut tasks = std::mem::take(&mut self.outstanding);
        tasks.extend(self.peer.take_queued());
        for task in tasks {
            match self.complete(server, task) {
                Err(task) => self.outstanding.push(task),
                Ok(completion) => {
                    progress = true;
                    match self.peer.step(completion).unwrap() {
                        StepAction::Done => {}
                        StepAction::SignalOffer(remote_id, request) => {
                            self.offers_sent.push(remote_id);
                            let reply = server.signal_offer(request.message);
                            self.peer.offer_signalled(remote_id, reply).unwrap();
                        }
                        StepAction::SignalAnswer(remote_id, request) => {
                            let reply = server.signal_answer(request.message);
                            self.peer.answer_signalled(remote_id, reply).unwrap();
                        }
                    }
                }
            }
        }
        progress
    }
}

/// Run peers until none has anything left to do.
fn run_all(server: &mut Signalling, drivers: &mut Vec<Driver>) {
    loop {
        let mut progress = false;
        for driver in drivers.iter_mut() {
            progress = driver.run(server) || progress;
        }
        if !progress {
            return;
        }
    }
}

#[test]
fn test_signalling() {
    let mut server = Signalling::new();
    let mut generator = PeerIdGenerator::new();
    // peer A is there first, peer B makes it an offer
    let peer_a = Driver::start(&mut server, &mut generator);
    let peer_b = Driver::start(&mut server, &mut generator);
    let mut drivers = vec![peer_a, peer_b];
    run_all(&mut server, &mut drivers);
    assert_eq!(drivers[1].offers_sent, vec![0]);
    assert_eq!(drivers[1].local_complete, vec![0]);
    assert_eq!(drivers[0].remote_complete, vec![1]);
    assert!(drivers[0].offers_sent.is_empty());
    assert!(drivers[0].local_complete.is_empty());
    assert!(drivers[1].remote_complete.is_empty());
    for driver in drivers.iter_mut() {
        driver.peer.close().unwrap();
    }
}

#[test]
fn every_pair_of_peers_signals_once() {
    let mut server = Signalling::new();
    let mut generator = PeerIdGenerator::new();
    let mut drivers: Vec<Driver> = Vec::new();
    for _ in 0..5 {
        let driver = Driver::start(&mut server, &mut generator);
        drivers.push(driver);
        run_all(&mut server, &mut drivers);
    }
    for (id, driver) in drivers.iter().enumerate() {
        let id = id as u64;
        // each peer makes an offer to those that were there before it
        let mut before: Vec<u64> = driver.offers_sent.clone();
        before.sort();
        assert_eq!(before, (0..id).collect::<Vec<u64>>());
        let mut completed = driver.local_complete.clone();
        completed.sort();
        assert_eq!(completed, (0..id).collect::<Vec<u64>>());
        assert_eq!(driver.remote_complete, (id + 1..5).collect::<Vec<u64>>());
        // and knows of all the others
        let others: Vec<u64> = (0..5).filter(|other| *other != id).collect();
        let known: Vec<u64> = driver.peer.discovered_peers().iter().copied().collect();
        assert_eq!(known, others);
        assert_eq!(driver.heard_changes.len(), 4);
    }
}

#[test]
fn each_listener_is_outstanding_once() {
    let mut server = Signalling::new();
    let mut generator = PeerIdGenerator::new();
    let mut drivers: Vec<Driver> = Vec::new();
    for _ in 0..3 {
        let driver = Driver::start(&mut server, &mut generator);
        drivers.push(driver);
        run_all(&mut server, &mut drivers);
        for driver in drivers.iter() {
            let tasks = &driver.outstanding;
            assert_eq!(tasks.len(), 3);
            assert_eq!(tasks.iter().filter(|t| matches!(t, Task::ListenPeers)).count(), 1);
            assert_eq!(tasks.iter().filter(|t| matches!(t, Task::ListenOffers)).count(), 1);
            assert_eq!(tasks.iter().filter(|t| matches!(t, Task::ListenAnswers)).count(), 1);
        }
    }
}
