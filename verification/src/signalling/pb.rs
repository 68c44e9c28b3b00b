//! The messages that signalling clients and servers exchange.

use vstd::prelude::*;

verus! {

/// Identifies a peer.
#[derive(Debug, Clone, Copy, PartialEq, Eq, Structural)]
pub struct PeerId {
    pub id: u64,
}

/// How the set of peers has changed.
#[derive(Debug, Clone, Copy, PartialEq, Eq, Structural)]
pub enum Change {
    PeerChangeAdd,
    PeerChangeRemove,
}

/// The number that stands for an addition on the wire.
pub const PEER_CHANGE_ADD: i32 = 0;

/// The number that stands for a removal on the wire.
pub const PEER_CHANGE_REMOVE: i32 = 1;

/// A peer that was added or removed.
#[derive(Debug, Clone, Copy, PartialEq, Eq, Structural)]
pub struct PeerChange {
    pub id: u64,
    /// The wire number of the change. Numbers that stand for no change are carried as they are.
    pub change: i32,
}

/// What a wire number means. As for every enumeration on the wire, a number without a meaning reads
/// as the first variant.
pub open spec fn change_of(number: i32) -> Change {
    if number == PEER_CHANGE_REMOVE {
        Change::PeerChangeRemove
    } else {
        Change::PeerChangeAdd
    }
}

impl PeerChange {
    /// The addition of a peer.
    pub open spec fn spec_add(id: u64) -> Self {
        PeerChange { id, change: PEER_CHANGE_ADD }
    }

    /// Create new peer change as addition.
    pub fn add(id: u64) -> (change: Self)
        ensures
            change == Self::spec_add(id),
    {
        PeerChange { id, change: PEER_CHANGE_ADD }
    }

    /// Create new peer change as removal.
    pub fn _remove(id: u64) -> (change: Self)
        ensures
            change == (PeerChange { id, change: PEER_CHANGE_REMOVE }),
    {
        PeerChange { id, change: PEER_CHANGE_REMOVE }
    }

    /// What kind of change this is.
    pub fn change(&self) -> (change: Change)
        ensures
            change == change_of(self.change),
    {
        if self.change == PEER_CHANGE_REMOVE {
            Change::PeerChangeRemove
        } else {
            Change::PeerChangeAdd
        }
    }
}

/// Asks for an identity.
#[derive(Debug, Clone, Copy, PartialEq, Eq)]
pub struct AdvertiseReq {}

/// The identity that was assigned.
#[derive(Debug, Clone, Copy, PartialEq, Eq)]
pub struct AdvertiseRsp {
    pub local_peer: Option<PeerId>,
}

/// Asks for the peers that are known.
#[derive(Debug, Clone, Copy, PartialEq, Eq)]
pub struct PeerDiscoverReq {
    pub local_peer: Option<PeerId>,
}

/// The peers that are known, without the peer that asked.
#[derive(Debug, Clone, PartialEq, Eq)]
pub struct PeerDiscoverRsp {
    pub remote_peers: Vec<PeerId>,
}

/// Asks to be told of changes to the set of peers.
#[derive(Debug, Clone, Copy, PartialEq, Eq)]
pub struct PeerListenerReq {
    pub local_peer: Option<PeerId>,
}

/// Changes to the set of peers.
#[derive(Debug, Clone, PartialEq, Eq)]
pub struct PeerListenerRsp {
    pub peer_changes: Vec<PeerChange>,
}

/// An offer, with the candidates of the peer that makes it.
#[derive(Debug, Clone, PartialEq, Eq)]
pub struct SignalOffer {
    pub offerer_id: u64,
    pub candidates: Vec<u8>,
    pub offer: Vec<u8>,
}

/// Asks to forward an offer to the peer that is to answer it.
#[derive(Debug, Clone, PartialEq, Eq)]
pub struct SignalOfferReq {
    pub answerer_peer: Option<PeerId>,
    pub offer_signal: Option<SignalOffer>,
}

/// An offer was forwarded.
#[derive(Debug, Clone, Copy, PartialEq, Eq)]
pub struct SignalOfferRsp {}

/// Asks for the offers made to a peer.
#[derive(Debug, Clone, Copy, PartialEq, Eq)]
pub struct OfferListenerReq {
    pub local_peer: Option<PeerId>,
}

/// An offer made to the peer that listens. The first message of a peer carries none.
#[derive(Debug, Clone, PartialEq, Eq)]
pub struct OfferListenerRsp {
    pub offer_signal: Option<SignalOffer>,
}

/// An answer, with the candidates of the peer that gives it.
#[derive(Debug, Clone, PartialEq, Eq)]
pub struct SignalAnswer {
    pub answerer_id: u64,
    pub candidates: Vec<u8>,
    pub answer: Vec<u8>,
}

/// Asks to forward an answer to the peer that made the offer.
#[derive(Debug, Clone, PartialEq, Eq)]
pub struct SignalAnswerReq {
    pub offerer_peer: Option<PeerId>,
    pub answer_signal: Option<SignalAnswer>,
}

/// An answer was forwarded.
#[derive(Debug, Clone, Copy, PartialEq, Eq)]
pub struct SignalAnswerRsp {}

/// Asks for the answers given to a peer.
#[derive(Debug, Clone, Copy, PartialEq, Eq)]
pub struct AnswerListenerReq {
    pub local_peer: Option<PeerId>,
}

/// An answer given to the peer that listens. The first message of a peer carries none.
#[derive(Debug, Clone, PartialEq, Eq)]
pub struct AnswerListenerRsp {
    pub answer_signal: Option<SignalAnswer>,
}

} // verus!
