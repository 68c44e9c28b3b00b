//! Bounded first-in-first-out mailboxes, in which signals wait for the peer they are addressed to.

use vstd::prelude::*;

use crate::signalling::pb::SignalAnswer;
use crate::signalling::pb::SignalOffer;

verus! {

/// How many messages a mailbox holds.
pub const MAILBOX_CAPACITY: usize = 16;

/// An offer or an answer, with the candidates of the peer that sent it.
#[derive(Debug)]
pub struct Signal {
    pub sender_id: u64,
    pub candidates: Vec<u8>,
    pub desc: Vec<u8>,
}

impl Signal {
    /// The signal that carries an offer.
    pub open spec fn of_offer(offer: SignalOffer) -> Signal {
        Signal { sender_id: offer.offerer_id, candidates: offer.candidates, desc: offer.offer }
    }

    /// The signal that carries an answer.
    pub open spec fn of_answer(answer: SignalAnswer) -> Signal {
        Signal { sender_id: answer.answerer_id, candidates: answer.candidates, desc: answer.answer }
    }

    /// Carry an offer.
    pub fn from_offer(offer: SignalOffer) -> (signal: Signal)
        ensures
            signal == Self::of_offer(offer),
    {
        Signal { sender_id: offer.offerer_id, candidates: offer.candidates, desc: offer.offer }
    }

    /// Carry an answer.
    pub fn from_answer(answer: SignalAnswer) -> (signal: Signal)
        ensures
            signal == Self::of_answer(answer),
    {
        Signal { sender_id: answer.answerer_id, candidates: answer.candidates, desc: answer.answer }
    }

    /// The offer that is carried.
    pub fn into_offer(self) -> (offer: SignalOffer)
        ensures
            self == Self::of_offer(offer),
    {
        SignalOffer { offerer_id: self.sender_id, candidates: self.candidates, offer: self.desc }
    }

    /// The answer that is carried.
    pub fn into_answer(self) -> (answer: SignalAnswer)
        ensures
            self == Self::of_answer(answer),
    {
        SignalAnswer { answerer_id: self.sender_id, candidates: self.candidates, answer: self.desc }
    }
}

/// Why a message could not be put into a mailbox.
#[derive(Debug, Clone, Copy, PartialEq, Eq, Structural)]
pub enum Undelivered {
    /// The mailbox is full.
    Full,
    /// Nobody can take messages out of the mailbox any more.
    Disconnected,
}

/// The sending end of a `flume` channel.
#[verifier::external_type_specification]
#[verifier::external_body]
#[verifier::reject_recursive_types(T)]
pub struct ExFlumeSender<T>(flume::Sender<T>);

/// The receiving end of a `flume` channel.
#[verifier::external_type_specification]
#[verifier::external_body]
#[verifier::reject_recursive_types(T)]
pub struct ExFlumeReceiver<T>(flume::Receiver<T>);

/// The messages that a sender has put into its channel so far, in order.
pub uninterp spec fn flume_sent(tx: flume::Sender<Option<Signal>>) -> Seq<Option<Signal>>;

/// The limit that a sender's channel was made with.
pub uninterp spec fn flume_capacity(tx: flume::Sender<Option<Signal>>) -> nat;

/// Which channel a sender belongs to.
pub uninterp spec fn flume_sender_channel(tx: flume::Sender<Option<Signal>>) -> int;

/// How many messages a receiver has taken out of its channel so far.
pub uninterp spec fn flume_received(rx: flume::Receiver<Option<Signal>>) -> nat;

/// Which channel a receiver belongs to.
pub uninterp spec fn flume_receiver_channel(rx: flume::Receiver<Option<Signal>>) -> int;

/// Calls `flume::bounded`: a new, empty channel with a limit, and its only two ends. The limit is one
/// to which one more can be added, as taking messages out does.
#[verifier::external_body]
fn flume_bounded(cap: usize) -> (ends: (
    flume::Sender<Option<Signal>>,
    flume::Receiver<Option<Signal>>,
))
    requires
        cap < usize::MAX,
    ensures
        flume_sender_channel(ends.0) == flume_receiver_channel(ends.1),
        flume_capacity(ends.0) == cap,
        flume_sent(ends.0) == Seq::<Option<Signal>>::empty(),
        flume_received(ends.1) == 0,
{
    flume::bounded(cap)
}

/// Calls `flume::Sender::try_send`: appends the message when fewer messages than the limit wait,
/// and refuses it as `Full` otherwise.
///
/// The receiver is borrowed along with the sender: how many messages wait depends on what it has
/// taken out, and while it lives the channel is not disconnected.
#[verifier::external_body]
fn flume_try_send(
    tx: &mut flume::Sender<Option<Signal>>,
    rx: &flume::Receiver<Option<Signal>>,
    message: Option<Signal>,
) -> (outcome: Result<(), Undelivered>)
    requires
        flume_sender_channel(*old(tx)) == flume_receiver_channel(*rx),
    ensures
        flume_sender_channel(*final(tx)) == flume_sender_channel(*old(tx)),
        flume_capacity(*final(tx)) == flume_capacity(*old(tx)),
        if flume_sent(*old(tx)).len() - flume_received(*rx) < flume_capacity(*old(tx)) {
            &&& outcome == Ok::<(), Undelivered>(())
            &&& flume_sent(*final(tx)) == flume_sent(*old(tx)).push(message)
        } else {
            &&& outcome == Err::<(), Undelivered>(Undelivered::Full)
            &&& flume_sent(*final(tx)) == flume_sent(*old(tx))
        },
{
    match tx.try_send(message) {
        Ok(()) => Ok(()),
        Err(flume::TrySendError::Full(_)) => Err(Undelivered::Full),
        Err(flume::TrySendError::Disconnected(_)) => Err(Undelivered::Disconnected),
    }
}

/// Calls `flume::Receiver::try_recv`: takes out the message that has waited longest, if one waits.
///
/// The sender is borrowed along with the receiver: which messages wait depends on what it has sent,
/// and while it lives the channel is not disconnected. The limit is one to which one more can be
/// added.
#[verifier::external_body]
fn flume_try_recv(
    rx: &mut flume::Receiver<Option<Signal>>,
    tx: &flume::Sender<Option<Signal>>,
) -> (message: Option<Option<Signal>>)
    requires
        flume_sender_channel(*tx) == flume_receiver_channel(*old(rx)),
        flume_capacity(*tx) < usize::MAX,
    ensures
        flume_receiver_channel(*final(rx)) == flume_receiver_channel(*old(rx)),
        if flume_received(*old(rx)) < flume_sent(*tx).len() {
            &&& message == Some(flume_sent(*tx)[flume_received(*old(rx)) as int])
            &&& flume_received(*final(rx)) == flume_received(*old(rx)) + 1
        } else {
            &&& message is None
            &&& flume_received(*final(rx)) == flume_received(*old(rx))
        },
{
    rx.try_recv().ok()
}

/// A bounded first-in-first-out mailbox.
#[derive(Debug)]
pub struct Mailbox {
    tx: flume::Sender<Option<Signal>>,
    rx: flume::Receiver<Option<Signal>>,
}

impl View for Mailbox {
    type V = Seq<Option<Signal>>;

    /// The messages that wait, the one that has waited longest first.
    closed spec fn view(&self) -> Seq<Option<Signal>> {
        flume_sent(self.tx).skip(flume_received(self.rx) as int)
    }
}

impl Mailbox {
    /// Both ends belong to one channel of the mailbox capacity, no more messages were taken out than
    /// put in, and no more wait than there is room for.
    pub closed spec fn wf(&self) -> bool {
        &&& flume_sender_channel(self.tx) == flume_receiver_channel(self.rx)
        &&& flume_capacity(self.tx) == MAILBOX_CAPACITY
        &&& flume_received(self.rx) <= flume_sent(self.tx).len() <= flume_received(self.rx)
            + MAILBOX_CAPACITY
    }

    /// No more messages wait than there is room for.
    pub proof fn within_capacity(&self)
        requires
            self.wf(),
        ensures
            self@.len() <= MAILBOX_CAPACITY,
    {
    }

    /// An empty mailbox.
    pub fn new() -> (mailbox: Self)
        ensures
            mailbox.wf(),
            mailbox@ == Seq::<Option<Signal>>::empty(),
    {
        let (tx, rx) = flume_bounded(MAILBOX_CAPACITY);
        Mailbox { tx, rx }
    }

    /// Put a message into the mailbox, unless it is full.
    pub fn put(&mut self, message: Option<Signal>) -> (outcome: Result<(), Undelivered>)
        requires
            old(self).wf(),
        ensures
            final(self).wf(),
            old(self)@.len() < MAILBOX_CAPACITY ==> {
                &&& outcome == Ok::<(), Undelivered>(())
                &&& final(self)@ == old(self)@.push(message)
            },
            old(self)@.len() >= MAILBOX_CAPACITY ==> {
                &&& outcome == Err::<(), Undelivered>(Undelivered::Full)
                &&& final(self)@ == old(self)@
            },
    {
        flume_try_send(&mut self.tx, &self.rx, message)
    }

    /// Take out the message that has waited longest, if one waits.
    pub fn take(&mut self) -> (message: Option<Option<Signal>>)
        requires
            old(self).wf(),
        ensures
            final(self).wf(),
            old(self)@.len() == 0 ==> {
                &&& message is None
                &&& final(self)@ == old(self)@
            },
            old(self)@.len() > 0 ==> {
                &&& message == Some(old(self)@[0])
                &&& final(self)@ == old(self)@.skip(1)
            },
    {
        flume_try_recv(&mut self.rx, &self.tx)
    }
}

} // verus!
