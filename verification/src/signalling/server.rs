//! The state of a signalling server: the peers that advertised themselves, their mailboxes, and the
//! feed of changes that peer listeners follow.

use std::collections::HashMap;

use vstd::prelude::*;
use vstd::std_specs::hash::*;
use vstd::std_specs::iter::IteratorSpec;

use crate::signalling::feed::broadcast_capacity;
use crate::signalling::feed::broadcast_channel;
use crate::signalling::feed::broadcast_new_receiver;
use crate::signalling::feed::broadcast_overflows;
use crate::signalling::feed::broadcast_position;
use crate::signalling::feed::broadcast_receiver_channel;
use crate::signalling::feed::broadcast_sender_channel;
use crate::signalling::feed::broadcast_sent;
use crate::signalling::feed::broadcast_set_overflow;
use crate::signalling::feed::broadcast_try_broadcast;
use crate::signalling::feed::broadcast_try_recv;
use crate::signalling::feed::feed_position_after;
use crate::signalling::feed::FeedError;
use crate::signalling::feed::FeedMessage;
use crate::signalling::feed::FEED_CAPACITY;
use crate::signalling::mailbox::Mailbox;
use crate::signalling::mailbox::Signal;
use crate::signalling::mailbox::Undelivered;
use crate::signalling::mailbox::MAILBOX_CAPACITY;
use crate::signalling::pb::AdvertiseReq;
use crate::signalling::pb::AdvertiseRsp;
use crate::signalling::pb::AnswerListenerReq;
use crate::signalling::pb::AnswerListenerRsp;
use crate::signalling::pb::OfferListenerReq;
use crate::signalling::pb::OfferListenerRsp;
use crate::signalling::pb::PeerChange;
use crate::signalling::pb::PeerDiscoverReq;
use crate::signalling::pb::PeerDiscoverRsp;
use crate::signalling::pb::PeerId;
use crate::signalling::pb::PeerListenerReq;
use crate::signalling::pb::PeerListenerRsp;
use crate::signalling::pb::SignalAnswerReq;
use crate::signalling::pb::SignalAnswerRsp;
use crate::signalling::pb::SignalOfferReq;
use crate::signalling::pb::SignalOfferRsp;
use crate::signalling::pb::PEER_CHANGE_ADD;
use crate::signalling::status::Code;
use crate::signalling::status::Status;

verus! {

broadcast use vstd::std_specs::hash::group_hash_axioms;

/// Hands out peer ids, one after the other, starting over once all were handed out.
#[derive(Debug)]
pub struct PeerIdGenerator {
    next: u64,
}

impl View for PeerIdGenerator {
    type V = u64;

    /// The id that is handed out next.
    closed spec fn view(&self) -> u64 {
        self.next
    }
}

/// The id that is handed out after another.
pub open spec fn id_after(id: u64) -> u64 {
    if id == u64::MAX {
        0
    } else {
        (id + 1) as u64
    }
}

impl PeerIdGenerator {
    /// A generator that has handed out nothing.
    pub fn new() -> (generator: Self)
        ensures
            generator@ == 0,
    {
        PeerIdGenerator { next: 0 }
    }

    /// Hand out an id.
    pub fn generate(&mut self) -> (id: u64)
        ensures
            id == old(self)@,
            final(self)@ == id_after(old(self)@),
    {
        let id: u64 = self.next;
        self.next = id.wrapping_add(1);
        id
    }
}

/// The messages that wait for a peer.
#[verifier::ext_equal]
pub struct ListenersView {
    pub offers: Seq<Option<Signal>>,
    pub answers: Seq<Option<Signal>>,
}

/// The mailboxes of a peer.
#[derive(Debug)]
pub struct Listeners {
    offers: Mailbox,
    answers: Mailbox,
}

impl View for Listeners {
    type V = ListenersView;

    closed spec fn view(&self) -> ListenersView {
        ListenersView { offers: self.offers@, answers: self.answers@ }
    }
}

impl Listeners {
    /// Both mailboxes are well-formed.
    pub closed spec fn wf(&self) -> bool {
        self.offers.wf() && self.answers.wf()
    }

    /// The mailboxes of a peer that has just advertised itself. Each holds one empty message, so
    /// that a listener that opens hears something at once.
    pub fn new() -> (listeners: Self)
        ensures
            listeners.wf(),
            listeners@ == fresh_listeners(),
    {
        let mut offers = Mailbox::new();
        let mut answers = Mailbox::new();
        let _ = answers.put(None);
        let _ = offers.put(None);
        Listeners { offers, answers }
    }
}

/// The mailboxes of a peer that has just advertised itself.
pub open spec fn fresh_listeners() -> ListenersView {
    ListenersView { offers: seq![None], answers: seq![None] }
}

/// The state of a signalling server.
#[verifier::ext_equal]
pub struct SignallingView {
    /// The messages that wait for each peer.
    pub peers: Map<u64, ListenersView>,
    /// The peers in the order in which they advertised themselves.
    pub announced: Seq<u64>,
}

impl SignallingView {
    /// The peers are those that advertised themselves, each once, and no mailbox is over capacity.
    pub open spec fn is_consistent(self) -> bool {
        &&& self.announced.no_duplicates()
        &&& self.announced.to_set() == self.peers.dom()
        &&& forall|id: u64| #[trigger]
            self.peers.contains_key(id) ==> self.peers[id].offers.len() <= MAILBOX_CAPACITY
                && self.peers[id].answers.len() <= MAILBOX_CAPACITY
    }

    /// A peer has advertised itself.
    pub open spec fn with_peer(self, id: u64) -> Self {
        SignallingView {
            peers: self.peers.insert(id, fresh_listeners()),
            announced: self.announced.push(id),
        }
    }

    /// An offer waits for a peer.
    pub open spec fn with_offer(self, id: u64, offer: Signal) -> Self {
        SignallingView {
            peers: self.peers.insert(
                id,
                ListenersView {
                    offers: self.peers[id].offers.push(Some(offer)),
                    answers: self.peers[id].answers,
                },
            ),
            announced: self.announced,
        }
    }

    /// An answer waits for a peer.
    pub open spec fn with_answer(self, id: u64, answer: Signal) -> Self {
        SignallingView {
            peers: self.peers.insert(
                id,
                ListenersView {
                    offers: self.peers[id].offers,
                    answers: self.peers[id].answers.push(Some(answer)),
                },
            ),
            announced: self.announced,
        }
    }

    /// A peer has taken the offer message that waited longest, if one waited.
    pub open spec fn offer_taken(self, id: u64) -> Self {
        if self.peers.contains_key(id) && self.peers[id].offers.len() > 0 {
            SignallingView {
                peers: self.peers.insert(
                    id,
                    ListenersView {
                        offers: self.peers[id].offers.skip(1),
                        answers: self.peers[id].answers,
                    },
                ),
                announced: self.announced,
            }
        } else {
            self
        }
    }

    /// A peer has taken the answer message that waited longest, if one waited.
    pub open spec fn answer_taken(self, id: u64) -> Self {
        if self.peers.contains_key(id) && self.peers[id].answers.len() > 0 {
            SignallingView {
                peers: self.peers.insert(
                    id,
                    ListenersView {
                        offers: self.peers[id].offers,
                        answers: self.peers[id].answers.skip(1),
                    },
                ),
                announced: self.announced,
            }
        } else {
            self
        }
    }
}

/// Mapped signalling channels.
#[derive(Debug)]
pub struct Signalling {
    peers: HashMap<u64, Listeners>,
    peer_broadcast_tx: async_broadcast::Sender<FeedMessage>,
    peer_broadcast_rx: async_broadcast::Receiver<FeedMessage>,
}

/// The feed message that announces a peer.
pub open spec fn announcement(id: u64) -> Seq<(u64, i32)> {
    seq![(id, PEER_CHANGE_ADD)]
}

impl View for Signalling {
    type V = SignallingView;

    closed spec fn view(&self) -> SignallingView {
        SignallingView {
            peers: self.peers@.map_values(|listeners: Listeners| listeners@),
            announced: broadcast_sent(self.peer_broadcast_tx).map_values(
                |message: Seq<(u64, i32)>| message[0].0,
            ),
        }
    }
}

impl Signalling {
    /// The mailboxes are well-formed, the feed never refuses a message, and it has announced
    /// exactly the peers, each once.
    pub closed spec fn wf(&self) -> bool {
        &&& forall|id: u64| #[trigger] self.peers@.contains_key(id) ==> self.peers@[id].wf()
        &&& broadcast_sender_channel(self.peer_broadcast_tx) == broadcast_receiver_channel(
            self.peer_broadcast_rx,
        )
        &&& broadcast_capacity(self.peer_broadcast_tx) == FEED_CAPACITY
        &&& broadcast_overflows(self.peer_broadcast_tx)
        &&& forall|i: int|
            0 <= i < broadcast_sent(self.peer_broadcast_tx).len() ==> (#[trigger] broadcast_sent(
                self.peer_broadcast_tx,
            )[i]) == announcement(self@.announced[i])
        &&& self@.announced.no_duplicates()
        &&& self@.announced.to_set() == self@.peers.dom()
    }

    /// The peers are those that advertised themselves, each once, and no mailbox is over capacity.
    pub proof fn state_is_consistent(&self)
        requires
            self.wf(),
        ensures
            self@.is_consistent(),
    {
        assert forall|id: u64| #[trigger] self@.peers.contains_key(id) implies self@.peers[id].offers.len()
            <= MAILBOX_CAPACITY && self@.peers[id].answers.len() <= MAILBOX_CAPACITY by {
            self.peers@[id].offers.within_capacity();
            self.peers@[id].answers.within_capacity();
        }
    }

    /// Which feed this state announces its peers on.
    pub closed spec fn feed(&self) -> int {
        broadcast_sender_channel(self.peer_broadcast_tx)
    }

    /// Create new empty signalling channels.
    pub fn new() -> (signalling: Self)
        ensures
            signalling.wf(),
            signalling@ == (SignallingView { peers: Map::empty(), announced: Seq::empty() }),
    {
        let (tx, rx) = broadcast_channel(FEED_CAPACITY);
        let mut tx = tx;
        broadcast_set_overflow(&mut tx, true);
        let signalling = Signalling {
            peers: HashMap::new(),
            peer_broadcast_tx: tx,
            peer_broadcast_rx: rx,
        };
        assert(signalling@.peers =~= Map::empty());
        assert(signalling@.announced =~= Seq::empty());
        assert(signalling@.announced.to_set() =~= signalling@.peers.dom());
        signalling
    }
}

impl Default for Signalling {
    fn default() -> (signalling: Self)
        ensures
            signalling.wf(),
            signalling@ == (SignallingView { peers: Map::empty(), announced: Seq::empty() }),
    {
        Signalling::new()
    }
}

/// Whether a list names every peer but one, and none of them twice.
pub open spec fn names_all_but(ids: Seq<u64>, peers: Set<u64>, local_id: u64) -> bool {
    &&& ids.no_duplicates()
    &&& ids.to_set() == peers.remove(local_id)
}

impl Signalling {
    /// A peer advertises itself: it gets an id, fresh mailboxes, and is announced on the feed.
    /// Refused, without a change, where the id is taken.
    pub fn advertise(
        &mut self,
        _request: AdvertiseReq,
        generator: &mut PeerIdGenerator,
    ) -> (response: Result<AdvertiseRsp, Status>)
        requires
            old(self).wf(),
        ensures
            final(self).wf(),
            final(self).feed() == old(self).feed(),
            final(generator)@ == id_after(old(generator)@),
            old(self)@.peers.contains_key(old(generator)@) ==> {
                &&& response is Err
                &&& response->Err_0.says(Code::Internal, "generated duplicate ID!"@)
                &&& final(self)@ == old(self)@
            },
            !old(self)@.peers.contains_key(old(generator)@) ==> {
                &&& response == Ok::<AdvertiseRsp, Status>(
                    AdvertiseRsp { local_peer: Some(PeerId { id: old(generator)@ }) },
                )
                &&& final(self)@ == old(self)@.with_peer(old(generator)@)
            },
    {
        let id: u64 = generator.generate();
        if self.peers.contains_key(&id) {
            return Err(Status::new(Code::Internal, "generated duplicate ID!"));
        }
        let ghost before = self@;
        let ghost sent = broadcast_sent(self.peer_broadcast_tx);
        self.peers.insert(id, Listeners::new());
        proof {
            // One announcement was sent for each peer that was there before, and there is room for
            // one peer more.
            before.announced.unique_seq_to_set();
            assert(self.peers@.dom() =~= before.peers.dom().insert(id));
            assert(spec_hash_map_len(&self.peers) == self.peers@.len());
        }
        let message: FeedMessage = vec![(id, PEER_CHANGE_ADD)];
        assert(message@ =~= announcement(id));
        let _ = broadcast_try_broadcast(
            &mut self.peer_broadcast_tx,
            &self.peer_broadcast_rx,
            message,
        );
        proof {
            assert(self@.announced =~= before.announced.push(id));
            assert(self@.peers =~= before.peers.insert(id, fresh_listeners()));
            assert(self@.announced.to_set() =~= before.announced.to_set().insert(id)) by {
                assert forall|other: u64| #[trigger]
                    before.announced.to_set().insert(id).contains(
                        other,
                    ) implies self@.announced.contains(other) by {
                    if other == id {
                        assert(self@.announced[before.announced.len() as int] == id);
                    } else {
                        let i = before.announced.index_of(other);
                        assert(before.announced.contains(other));
                        assert(self@.announced[i] == other);
                    }
                }
            }
            assert(self@.peers.dom() =~= before.peers.dom().insert(id));
            assert(!before.announced.contains(id)) by {
                assert(!before.announced.to_set().contains(id));
            }
        }
        Ok(AdvertiseRsp { local_peer: Some(PeerId { id }) })
    }

    /// The peers other than one.
    fn others(&self, local_id: u64) -> (ids: Vec<u64>)
        requires
            self.wf(),
        ensures
            names_all_but(ids@, self@.peers.dom(), local_id),
    {
        let mut ids: Vec<u64> = Vec::new();
        let ghost all = spec_keys_iter(&self.peers).remaining();
        for id in keys: self.peers.keys()
            invariant
                keys.seq() == all,
                all.no_duplicates(),
                ids@.no_duplicates(),
                forall|j: int|
                    0 <= j < ids@.len() ==> #[trigger] ids@[j] != local_id && all.take(
                        keys.index(),
                    ).contains(&ids@[j]),
                forall|i: int|
                    0 <= i < keys.index() && *all[i] != local_id ==> ids@.contains(
                        *#[trigger] all[i],
                    ),
        {
            let ghost index = keys.index();
            let ghost before = ids@;
            proof {
                assert(all[index] == id);
                assert forall|i: int| 0 <= i < index implies *(#[trigger] all[i]) != *id by {
                    assert(all[i] != all[index]);
                }
                assert(!before.contains(*id)) by {
                    if before.contains(*id) {
                        let j = before.index_of(*id);
                        assert(all.take(index).contains(&before[j]));
                        let i = all.take(index).index_of(&before[j]);
                        assert(all[i] == all.take(index)[i]);
                    }
                }
            }
            if *id != local_id {
                ids.push(*id);
            }
            proof {
                assert forall|j: int| 0 <= j < ids@.len() implies #[trigger] ids@[j] != local_id
                    && all.take(index + 1).contains(&ids@[j]) by {
                    if j < before.len() {
                        assert(before[j] == ids@[j]);
                        let i = all.take(index).index_of(&before[j]);
                        assert(all.take(index + 1)[i] == all.take(index)[i]);
                    } else {
                        assert(all.take(index + 1)[index] == &ids@[j]);
                    }
                }
                assert forall|i: int|
                    0 <= i < index + 1 && *all[i] != local_id implies ids@.contains(
                    *#[trigger] all[i],
                ) by {
                    if i < index {
                        let j = before.index_of(*all[i]);
                        assert(ids@[j] == *all[i]);
                    } else {
                        assert(ids@[before.len() as int] == *all[i]);
                    }
                }
            }
        }
        proof {
            assert(all.take(all.len() as int) =~= all);
            assert forall|id: u64| ids@.to_set().contains(id) <==> self@.peers.dom().remove(
                local_id,
            ).contains(id) by {
                if ids@.to_set().contains(id) {
                    let j = ids@.index_of(id);
                    assert(ids@[j] == id);
                    let i = all.index_of(&id);
                    assert(all.unref()[i] == id);
                    assert(all.unref().to_set().contains(id));
                }
                if self@.peers.dom().remove(local_id).contains(id) {
                    assert(all.unref().to_set().contains(id));
                    let i = all.unref().index_of(id);
                    assert(*all[i] == id);
                }
            }
            assert(ids@.to_set() =~= self@.peers.dom().remove(local_id));
        }
        ids
    }
}

/// The ids that a list of peers names.
pub open spec fn peer_ids(peers: Seq<PeerId>) -> Seq<u64> {
    peers.map_values(|peer: PeerId| peer.id)
}

/// The ids that a list of changes names.
pub open spec fn changed_ids(changes: Seq<PeerChange>) -> Seq<u64> {
    changes.map_values(|change: PeerChange| change.id)
}

/// Whether a list of changes adds peers, and does nothing else.
pub open spec fn only_adds(changes: Seq<PeerChange>) -> bool {
    forall|i: int|
        0 <= i < changes.len() ==> #[trigger] changes[i] == PeerChange::spec_add(changes[i].id)
}

impl Signalling {
    /// A peer asks for the other peers.
    pub fn peer_discover(&self, request: PeerDiscoverReq) -> (response: Result<
        PeerDiscoverRsp,
        Status,
    >)
        requires
            self.wf(),
        ensures
            match request.local_peer {
                None => {
                    &&& response is Err
                    &&& response->Err_0.says(Code::InvalidArgument, "missing local peer ID"@)
                },
                Some(local_peer) => {
                    &&& response is Ok
                    &&& names_all_but(
                        peer_ids(response->Ok_0.remote_peers@),
                        self@.peers.dom(),
                        local_peer.id,
                    )
                },
            },
    {
        let local_peer = match request.local_peer {
            Some(local_peer) => local_peer,
            None => return Err(Status::new(Code::InvalidArgument, "missing local peer ID")),
        };
        let ids = self.others(local_peer.id);
        let mut remote_peers: Vec<PeerId> = Vec::new();
        for i in 0..ids.len()
            invariant
                peer_ids(remote_peers@) == ids@.take(i as int),
        {
            let ghost before = remote_peers@;
            remote_peers.push(PeerId { id: ids[i] });
            assert(peer_ids(remote_peers@) =~= peer_ids(before).push(ids@[i as int]));
            assert(ids@.take(i + 1) =~= ids@.take(i as int).push(ids@[i as int]));
        }
        assert(ids@.take(ids@.len() as int) =~= ids@);
        Ok(PeerDiscoverRsp { remote_peers })
    }

    /// A peer opens a listener for changes to the set of peers. The listener starts with the peers
    /// that are there, other than the peer itself, and goes on with what is announced from then on.
    pub fn open_peer_listener(&self, request: PeerListenerReq) -> (response: Result<
        PeerListener,
        Status,
    >)
        requires
            self.wf(),
        ensures
            match request.local_peer {
                None => {
                    &&& response is Err
                    &&& response->Err_0.says(Code::InvalidArgument, "missing local peer ID"@)
                },
                Some(local_peer) => {
                    &&& response is Ok
                    &&& response->Ok_0.feed() == self.feed()
                    &&& response->Ok_0@.position == self@.announced.len()
                    &&& response->Ok_0@.initial is Some
                    &&& only_adds(response->Ok_0@.initial->0)
                    &&& names_all_but(
                        changed_ids(response->Ok_0@.initial->0),
                        self@.peers.dom(),
                        local_peer.id,
                    )
                },
            },
    {
        let local_peer = match request.local_peer {
            Some(local_peer) => local_peer,
            None => return Err(Status::new(Code::InvalidArgument, "missing local peer ID")),
        };
        // collect initial peer 'changes'
        let ids = self.others(local_peer.id);
        let mut initial: Vec<PeerChange> = Vec::new();
        for i in 0..ids.len()
            invariant
                only_adds(initial@),
                changed_ids(initial@) == ids@.take(i as int),
        {
            let ghost before = initial@;
            initial.push(PeerChange::add(ids[i]));
            assert(changed_ids(initial@) =~= changed_ids(before).push(ids@[i as int]));
            assert(ids@.take(i + 1) =~= ids@.take(i as int).push(ids@[i as int]));
        }
        assert(ids@.take(ids@.len() as int) =~= ids@);
        let rx = broadcast_new_receiver(&self.peer_broadcast_rx, &self.peer_broadcast_tx);
        Ok(PeerListener { initial: Some(initial), rx })
    }
}

/// What a peer listener is still to hear.
pub struct PeerListenerView {
    /// The changes that it starts with, until it has heard them.
    pub initial: Option<Seq<PeerChange>>,
    /// How many announcements it is past.
    pub position: nat,
}

/// A listener for changes to the set of peers.
#[derive(Debug)]
pub struct PeerListener {
    initial: Option<Vec<PeerChange>>,
    rx: async_broadcast::Receiver<FeedMessage>,
}

impl View for PeerListener {
    type V = PeerListenerView;

    closed spec fn view(&self) -> PeerListenerView {
        PeerListenerView {
            initial: match self.initial {
                Some(changes) => Some(changes@),
                None => None,
            },
            position: broadcast_position(self.rx),
        }
    }
}

/// What a peer listener hears of a message of the feed, or of having got none.
pub fn peer_listener_result(received: Result<PeerListenerRsp, FeedError>) -> (heard: Option<
    Result<PeerListenerRsp, Status>,
>)
    ensures
        match received {
            Ok(message) => heard == Some(Ok::<PeerListenerRsp, Status>(message)),
            Err(FeedError::Overflowed(_)) => {
                &&& heard is Some
                &&& heard->0 is Err
                &&& heard->0->Err_0.says(
                    Code::DataLoss,
                    "peer listener has lagged behind. peer changes have been lost!"@,
                )
            },
            Err(FeedError::Closed) => {
                &&& heard is Some
                &&& heard->0 is Err
                &&& heard->0->Err_0.says(Code::Internal, "peer changes broadcast is closed!"@)
            },
            Err(FeedError::Empty) => heard is None,
        },
{
    match received {
        Ok(message) => Some(Ok(message)),
        Err(FeedError::Overflowed(_missed)) => Some(
            Err(
                Status::new(
                    Code::DataLoss,
                    "peer listener has lagged behind. peer changes have been lost!",
                ),
            ),
        ),
        Err(FeedError::Closed) => Some(
            Err(Status::new(Code::Internal, "peer changes broadcast is closed!")),
        ),
        Err(FeedError::Empty) => None,
    }
}

impl PeerListener {
    /// Which feed this listener follows.
    pub closed spec fn feed(&self) -> int {
        broadcast_receiver_channel(self.rx)
    }

    /// The next thing this listener hears, or nothing where it has heard everything so far: first
    /// the changes it starts with, then each announcement. A listener that fell behind by more
    /// than the feed keeps hears that changes were lost, and goes on with what the feed kept.
    pub fn next(&mut self, signalling: &Signalling) -> (heard: Option<
        Result<PeerListenerRsp, Status>,
    >)
        requires
            signalling.wf(),
            old(self).feed() == signalling.feed(),
        ensures
            final(self).feed() == old(self).feed(),
            final(self)@.initial is None,
            match old(self)@.initial {
                Some(changes) => {
                    &&& heard is Some
                    &&& heard->0 is Ok
                    &&& heard->0->Ok_0.peer_changes@ == changes
                    &&& final(self)@.position == old(self)@.position
                },
                None => {
                    &&& final(self)@.position == feed_position_after(
                        signalling@.announced.len(),
                        FEED_CAPACITY as nat,
                        old(self)@.position,
                    )
                    &&& if old(self)@.position + FEED_CAPACITY < signalling@.announced.len() {
                        &&& heard is Some
                        &&& heard->0 is Err
                        &&& heard->0->Err_0.says(
                            Code::DataLoss,
                            "peer listener has lagged behind. peer changes have been lost!"@,
                        )
                    } else if old(self)@.position < signalling@.announced.len() {
                        &&& heard is Some
                        &&& heard->0 is Ok
                        &&& heard->0->Ok_0.peer_changes@ == seq![
                            PeerChange::spec_add(
                                signalling@.announced[old(self)@.position as int],
                            ),
                        ]
                    } else {
                        heard is None
                    }
                },
            },
    {
        // load first result with initial peer changes
        let initial = self.initial.take();
        if let Some(peer_changes) = initial {
            return Some(Ok(PeerListenerRsp { peer_changes }));
        }
        let received = match broadcast_try_recv(&mut self.rx, &signalling.peer_broadcast_tx) {
            Ok(message) => Ok(PeerListenerRsp { peer_changes: changes_of(&message) }),
            Err(error) => Err(error),
        };
        peer_listener_result(received)
    }
}

/// The changes that a message of the feed carries.
fn changes_of(message: &FeedMessage) -> (changes: Vec<PeerChange>)
    ensures
        changes@ == message@.map_values(
            |entry: (u64, i32)| PeerChange { id: entry.0, change: entry.1 },
        ),
{
    let mut changes: Vec<PeerChange> = Vec::new();
    for i in 0..message.len()
        invariant
            changes@ == message@.take(i as int).map_values(
                |entry: (u64, i32)| PeerChange { id: entry.0, change: entry.1 },
            ),
    {
        let (id, change) = message[i];
        changes.push(PeerChange { id, change });
        assert(message@.take(i + 1) =~= message@.take(i as int).push(message@[i as int]));
    }
    assert(message@.take(message@.len() as int) =~= message@);
    changes
}


/// What a peer hears after its offer was, or was not, put into a mailbox.
pub fn offer_outcome(outcome: Result<(), Undelivered>) -> (response: Result<
    SignalOfferRsp,
    Status,
>)
    ensures
        match outcome {
            Ok(()) => response is Ok,
            Err(Undelivered::Disconnected) => {
                &&& response is Err
                &&& response->Err_0.says(Code::Internal, "offer listener receiver was dropped!"@)
            },
            Err(Undelivered::Full) => {
                &&& response is Err
                &&& response->Err_0.says(Code::Aborted, "offer listener buffer full!"@)
            },
        },
{
    match outcome {
        Ok(()) => Ok(SignalOfferRsp {  }),
        Err(Undelivered::Disconnected) => Err(
            Status::new(Code::Internal, "offer listener receiver was dropped!"),
        ),
        Err(Undelivered::Full) => Err(Status::new(Code::Aborted, "offer listener buffer full!")),
    }
}

impl Signalling {
    /// A peer sends an offer: it is put into the mailbox of the peer it is addressed to. Refused,
    /// without a change, where the request is incomplete, where no such peer has advertised itself,
    /// and where the mailbox is full.
    pub fn signal_offer(&mut self, request: SignalOfferReq) -> (response: Result<
        SignalOfferRsp,
        Status,
    >)
        requires
            old(self).wf(),
        ensures
            final(self).wf(),
            final(self).feed() == old(self).feed(),
            response is Err ==> final(self)@ == old(self)@,
            match (request.answerer_peer, request.offer_signal) {
                (None, _) => {
                    &&& response is Err
                    &&& response->Err_0.says(Code::InvalidArgument, "missing answerer peer ID"@)
                },
                (Some(_), None) => {
                    &&& response is Err
                    &&& response->Err_0.says(Code::InvalidArgument, "missing offer signal"@)
                },
                (Some(answerer), Some(offer)) => {
                    if !old(self)@.peers.contains_key(answerer.id) {
                        &&& response is Err
                        &&& response->Err_0.says(
                            Code::FailedPrecondition,
                            "answerer peer not advertised!"@,
                        )
                    } else if old(self)@.peers[answerer.id].offers.len() >= MAILBOX_CAPACITY {
                        &&& response is Err
                        &&& response->Err_0.says(Code::Aborted, "offer listener buffer full!"@)
                    } else {
                        &&& response is Ok
                        &&& final(self)@ == old(self)@.with_offer(answerer.id, Signal::of_offer(offer))
                    }
                },
            },
    {
        let answerer_peer = match request.answerer_peer {
            Some(answerer_peer) => answerer_peer,
            None => return Err(Status::new(Code::InvalidArgument, "missing answerer peer ID")),
        };
        let offer_signal = match request.offer_signal {
            Some(offer_signal) => offer_signal,
            None => return Err(Status::new(Code::InvalidArgument, "missing offer signal")),
        };
        let answerer_id: u64 = answerer_peer.id;
        let ghost before = self@;
        // transmit offer to listener
        let mut listeners = match self.peers.remove(&answerer_id) {
            Some(listeners) => listeners,
            None => {
                assert(self@.peers =~= before.peers);
                return Err(Status::new(Code::FailedPrecondition, "answerer peer not advertised!"));
            },
        };
        let outcome = listeners.offers.put(Some(Signal::from_offer(offer_signal)));
        self.peers.insert(answerer_id, listeners);
        proof {
            assert(self@.peers =~= before.peers.insert(answerer_id, listeners@));
            assert(self@.peers.dom() =~= before.peers.dom());
            if outcome is Err {
                assert(self@.peers =~= before.peers);
            }
        }
        offer_outcome(outcome)
    }

    /// A peer opens a listener for the offers addressed to it.
    pub fn open_offer_listener(&self, request: OfferListenerReq) -> (response: Result<
        OfferListener,
        Status,
    >)
        requires
            self.wf(),
        ensures
            match request.local_peer {
                None => {
                    &&& response is Err
                    &&& response->Err_0.says(Code::InvalidArgument, "missing local peer ID"@)
                },
                Some(local_peer) => {
                    if !self@.peers.contains_key(local_peer.id) {
                        &&& response is Err
                        &&& response->Err_0.says(
                            Code::FailedPrecondition,
                            "listener peer not advertised!"@,
                        )
                    } else {
                        &&& response is Ok
                        &&& response->Ok_0@ == local_peer.id
                    }
                },
            },
    {
        let local_peer = match request.local_peer {
            Some(local_peer) => local_peer,
            None => return Err(Status::new(Code::InvalidArgument, "missing local peer ID")),
        };
        if !self.peers.contains_key(&local_peer.id) {
            return Err(Status::new(Code::FailedPrecondition, "listener peer not advertised!"));
        }
        Ok(OfferListener { local_id: local_peer.id })
    }
}

/// A listener for the offers addressed to a peer. Listeners of one peer share its mailbox: each
/// message is heard once.
#[derive(Debug)]
pub struct OfferListener {
    local_id: u64,
}

impl View for OfferListener {
    type V = u64;

    /// The peer whose offers are listened for.
    closed spec fn view(&self) -> u64 {
        self.local_id
    }
}

impl OfferListener {
    /// The offer message that has waited longest, if one waits. It waits no longer.
    pub fn next(&self, signalling: &mut Signalling) -> (heard: Option<OfferListenerRsp>)
        requires
            old(signalling).wf(),
        ensures
            final(signalling).wf(),
            final(signalling).feed() == old(signalling).feed(),
            final(signalling)@ == old(signalling)@.offer_taken(self@),
            if old(signalling)@.peers.contains_key(self@) && old(signalling)@.peers[self@].offers.len() > 0 {
                &&& heard is Some
                &&& match old(signalling)@.peers[self@].offers[0] {
                    Some(signal) => {
                        &&& heard->0.offer_signal is Some
                        &&& signal == Signal::of_offer(heard->0.offer_signal->0)
                    },
                    None => heard->0.offer_signal is None,
                }
            } else {
                heard is None
            },
    {
        let ghost before = signalling@;
        let mut listeners = match signalling.peers.remove(&self.local_id) {
            Some(listeners) => listeners,
            None => {
                assert(signalling@.peers =~= before.peers);
                return None;
            },
        };
        let message = listeners.offers.take();
        signalling.peers.insert(self.local_id, listeners);
        proof {
            assert(signalling@.peers =~= before.peers.insert(self.local_id, listeners@));
            assert(signalling@.peers.dom() =~= before.peers.dom());
            if message is None {
                assert(signalling@.peers =~= before.peers);
            }
        }
        match message {
            None => None,
            Some(None) => Some(OfferListenerRsp { offer_signal: None }),
            Some(Some(signal)) => Some(
                OfferListenerRsp { offer_signal: Some(signal.into_offer()) },
            ),
        }
    }
}

/// What a peer hears after its answer was, or was not, put into a mailbox.
pub fn answer_outcome(outcome: Result<(), Undelivered>) -> (response: Result<
    SignalAnswerRsp,
    Status,
>)
    ensures
        match outcome {
            Ok(()) => response is Ok,
            Err(Undelivered::Disconnected) => {
                &&& response is Err
                &&& response->Err_0.says(Code::Internal, "answer listener receiver was dropped!"@)
            },
            Err(Undelivered::Full) => {
                &&& response is Err
                &&& response->Err_0.says(Code::Aborted, "answer listener buffer full!"@)
            },
        },
{
    match outcome {
        Ok(()) => Ok(SignalAnswerRsp {  }),
        Err(Undelivered::Disconnected) => Err(
            Status::new(Code::Internal, "answer listener receiver was dropped!"),
        ),
        Err(Undelivered::Full) => Err(Status::new(Code::Aborted, "answer listener buffer full!")),
    }
}

impl Signalling {
    /// A peer sends an answer: it is put into the mailbox of the peer it is addressed to. Refused,
    /// without a change, where the request is incomplete, where no such peer has advertised itself,
    /// and where the mailbox is full.
    pub fn signal_answer(&mut self, request: SignalAnswerReq) -> (response: Result<
        SignalAnswerRsp,
        Status,
    >)
        requires
            old(self).wf(),
        ensures
            final(self).wf(),
            final(self).feed() == old(self).feed(),
            response is Err ==> final(self)@ == old(self)@,
            match (request.offerer_peer, request.answer_signal) {
                (None, _) => {
                    &&& response is Err
                    &&& response->Err_0.says(Code::InvalidArgument, "missing offerer peer ID"@)
                },
                (Some(_), None) => {
                    &&& response is Err
                    &&& response->Err_0.says(Code::InvalidArgument, "missing answer signal"@)
                },
                (Some(offerer), Some(answer)) => {
                    if !old(self)@.peers.contains_key(offerer.id) {
                        &&& response is Err
                        &&& response->Err_0.says(
                            Code::FailedPrecondition,
                            "answerer peer not advertised!"@,
                        )
                    } else if old(self)@.peers[offerer.id].answers.len() >= MAILBOX_CAPACITY {
                        &&& response is Err
                        &&& response->Err_0.says(Code::Aborted, "answer listener buffer full!"@)
                    } else {
                        &&& response is Ok
                        &&& final(self)@ == old(self)@.with_answer(offerer.id, Signal::of_answer(answer))
                    }
                },
            },
    {
        let offerer_peer = match request.offerer_peer {
            Some(offerer_peer) => offerer_peer,
            None => return Err(Status::new(Code::InvalidArgument, "missing offerer peer ID")),
        };
        let answer_signal = match request.answer_signal {
            Some(answer_signal) => answer_signal,
            None => return Err(Status::new(Code::InvalidArgument, "missing answer signal")),
        };
        let offerer_id: u64 = offerer_peer.id;
        let ghost before = self@;
        // transmit answer to listener
        let mut listeners = match self.peers.remove(&offerer_id) {
            Some(listeners) => listeners,
            None => {
                assert(self@.peers =~= before.peers);
                return Err(Status::new(Code::FailedPrecondition, "answerer peer not advertised!"));
            },
        };
        let outcome = listeners.answers.put(Some(Signal::from_answer(answer_signal)));
        self.peers.insert(offerer_id, listeners);
        proof {
            assert(self@.peers =~= before.peers.insert(offerer_id, listeners@));
            assert(self@.peers.dom() =~= before.peers.dom());
            if outcome is Err {
                assert(self@.peers =~= before.peers);
            }
        }
        answer_outcome(outcome)
    }

    /// A peer opens a listener for the answers addressed to it.
    pub fn open_answer_listener(&self, request: AnswerListenerReq) -> (response: Result<
        AnswerListener,
        Status,
    >)
        requires
            self.wf(),
        ensures
            match request.local_peer {
                None => {
                    &&& response is Err
                    &&& response->Err_0.says(Code::InvalidArgument, "missing local peer ID"@)
                },
                Some(local_peer) => {
                    if !self@.peers.contains_key(local_peer.id) {
                        &&& response is Err
                        &&& response->Err_0.says(
                            Code::FailedPrecondition,
                            "listener peer not advertised!"@,
                        )
                    } else {
                        &&& response is Ok
                        &&& response->Ok_0@ == local_peer.id
                    }
                },
            },
    {
        let local_peer = match request.local_peer {
            Some(local_peer) => local_peer,
            None => return Err(Status::new(Code::InvalidArgument, "missing local peer ID")),
        };
        if !self.peers.contains_key(&local_peer.id) {
            return Err(Status::new(Code::FailedPrecondition, "listener peer not advertised!"));
        }
        Ok(AnswerListener { local_id: local_peer.id })
    }
}

/// A listener for the answers addressed to a peer. Listeners of one peer share its mailbox: each
/// message is heard once.
#[derive(Debug)]
pub struct AnswerListener {
    local_id: u64,
}

impl View for AnswerListener {
    type V = u64;

    /// The peer whose answers are listened for.
    closed spec fn view(&self) -> u64 {
        self.local_id
    }
}

impl AnswerListener {
    /// The answer message that has waited longest, if one waits. It waits no longer.
    pub fn next(&self, signalling: &mut Signalling) -> (heard: Option<AnswerListenerRsp>)
        requires
            old(signalling).wf(),
        ensures
            final(signalling).wf(),
            final(signalling).feed() == old(signalling).feed(),
            final(signalling)@ == old(signalling)@.answer_taken(self@),
            if old(signalling)@.peers.contains_key(self@) && old(signalling)@.peers[self@].answers.len() > 0 {
                &&& heard is Some
                &&& match old(signalling)@.peers[self@].answers[0] {
                    Some(signal) => {
                        &&& heard->0.answer_signal is Some
                        &&& signal == Signal::of_answer(heard->0.answer_signal->0)
                    },
                    None => heard->0.answer_signal is None,
                }
            } else {
                heard is None
            },
    {
        let ghost before = signalling@;
        let mut listeners = match signalling.peers.remove(&self.local_id) {
            Some(listeners) => listeners,
            None => {
                assert(signalling@.peers =~= before.peers);
                return None;
            },
        };
        let message = listeners.answers.take();
        signalling.peers.insert(self.local_id, listeners);
        proof {
            assert(signalling@.peers =~= before.peers.insert(self.local_id, listeners@));
            assert(signalling@.peers.dom() =~= before.peers.dom());
            if message is None {
                assert(signalling@.peers =~= before.peers);
            }
        }
        match message {
            None => None,
            Some(None) => Some(AnswerListenerRsp { answer_signal: None }),
            Some(Some(signal)) => Some(
                AnswerListenerRsp { answer_signal: Some(signal.into_answer()) },
            ),
        }
    }
}

} // verus!
