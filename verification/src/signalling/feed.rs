//! The feed of changes to the set of peers, which every peer listener follows at its own pace.

use vstd::prelude::*;

verus! {

/// How many changes a listener may fall behind the feed before it loses some.
pub const FEED_CAPACITY: usize = 16;

/// Changes as the feed carries them: the id of each peer and the wire number of its change.
pub type FeedMessage = Vec<(u64, i32)>;

/// Why a listener got no changes out of the feed.
#[derive(Debug, Clone, Copy, PartialEq, Eq, Structural)]
pub enum FeedError {
    /// The listener fell too far behind and this many messages were lost.
    Overflowed(u64),
    /// The listener has seen everything so far.
    Empty,
    /// The feed is closed.
    Closed,
}

/// The sending end of an `async_broadcast` channel.
#[verifier::external_type_specification]
#[verifier::external_body]
#[verifier::reject_recursive_types(T)]
pub struct ExBroadcastSender<T>(async_broadcast::Sender<T>);

/// A receiving end of an `async_broadcast` channel.
#[verifier::external_type_specification]
#[verifier::external_body]
#[verifier::reject_recursive_types(T)]
pub struct ExBroadcastReceiver<T>(async_broadcast::Receiver<T>);

/// The messages that a sender has broadcast so far, in order.
pub uninterp spec fn broadcast_sent(tx: async_broadcast::Sender<FeedMessage>) -> Seq<
    Seq<(u64, i32)>,
>;

/// The limit that a sender's channel was made with.
pub uninterp spec fn broadcast_capacity(tx: async_broadcast::Sender<FeedMessage>) -> nat;

/// Whether a sender's channel drops its oldest message to make room for a new one.
pub uninterp spec fn broadcast_overflows(tx: async_broadcast::Sender<FeedMessage>) -> bool;

/// Which channel a sender belongs to.
pub uninterp spec fn broadcast_sender_channel(tx: async_broadcast::Sender<FeedMessage>) -> int;

/// How many of the messages broadcast so far a receiver is past.
pub uninterp spec fn broadcast_position(rx: async_broadcast::Receiver<FeedMessage>) -> nat;

/// Which channel a receiver belongs to.
pub uninterp spec fn broadcast_receiver_channel(rx: async_broadcast::Receiver<FeedMessage>) -> int;

/// Calls `async_broadcast::broadcast`: a new channel with a limit, its only sender, and a receiver
/// that is past nothing. The limit is not zero, and small enough to be allocated.
#[verifier::external_body]
pub(crate) fn broadcast_channel(cap: usize) -> (ends: (
    async_broadcast::Sender<FeedMessage>,
    async_broadcast::Receiver<FeedMessage>,
))
    requires
        0 < cap <= 0x1_0000,
    ensures
        broadcast_sender_channel(ends.0) == broadcast_receiver_channel(ends.1),
        broadcast_capacity(ends.0) == cap,
        !broadcast_overflows(ends.0),
        broadcast_sent(ends.0) == Seq::<Seq<(u64, i32)>>::empty(),
        broadcast_position(ends.1) == 0,
{
    async_broadcast::broadcast(cap)
}

/// Calls `async_broadcast::Sender::set_overflow`: says whether the oldest message makes room for a
/// new one, and changes nothing else.
#[verifier::external_body]
pub(crate) fn broadcast_set_overflow(tx: &mut async_broadcast::Sender<FeedMessage>, overflow: bool)
    ensures
        broadcast_overflows(*final(tx)) == overflow,
        broadcast_sender_channel(*final(tx)) == broadcast_sender_channel(*old(tx)),
        broadcast_capacity(*final(tx)) == broadcast_capacity(*old(tx)),
        broadcast_sent(*final(tx)) == broadcast_sent(*old(tx)),
{
    tx.set_overflow(overflow);
}

/// Calls `async_broadcast::Sender::try_broadcast`: broadcasts the message. On a channel that makes
/// room for new messages it succeeds as long as a receiver lives.
///
/// The receiver is borrowed along with the sender as the one that lives. The channel counts its
/// messages in a `u64`.
#[verifier::external_body]
pub(crate) fn broadcast_try_broadcast(
    tx: &mut async_broadcast::Sender<FeedMessage>,
    rx: &async_broadcast::Receiver<FeedMessage>,
    message: FeedMessage,
) -> (accepted: bool)
    requires
        broadcast_sender_channel(*old(tx)) == broadcast_receiver_channel(*rx),
        broadcast_overflows(*old(tx)),
        broadcast_sent(*old(tx)).len() < u64::MAX,
    ensures
        accepted,
        broadcast_sent(*final(tx)) == broadcast_sent(*old(tx)).push(message@),
        broadcast_sender_channel(*final(tx)) == broadcast_sender_channel(*old(tx)),
        broadcast_capacity(*final(tx)) == broadcast_capacity(*old(tx)),
        broadcast_overflows(*final(tx)) == broadcast_overflows(*old(tx)),
{
    tx.try_broadcast(message).is_ok()
}

/// Calls `async_broadcast::Receiver::new_receiver`: another receiver of the same channel, past
/// everything that was broadcast so far.
///
/// The sender is borrowed along with the receiver as the witness of what was broadcast.
#[verifier::external_body]
pub(crate) fn broadcast_new_receiver(
    rx: &async_broadcast::Receiver<FeedMessage>,
    tx: &async_broadcast::Sender<FeedMessage>,
) -> (fresh: async_broadcast::Receiver<FeedMessage>)
    requires
        broadcast_sender_channel(*tx) == broadcast_receiver_channel(*rx),
    ensures
        broadcast_receiver_channel(fresh) == broadcast_receiver_channel(*rx),
        broadcast_position(fresh) == broadcast_sent(*tx).len(),
{
    rx.new_receiver()
}

/// Calls `async_broadcast::Receiver::try_recv`. The channel keeps the newest messages, as many as
/// its limit says. A receiver that is past the ones before them gets the next message, if there is
/// one. A receiver that is not is told how many it lost, and is then past those.
///
/// The sender is borrowed along with the receiver as the witness of what was broadcast; while it
/// lives the channel is not closed.
#[verifier::external_body]
pub(crate) fn broadcast_try_recv(
    rx: &mut async_broadcast::Receiver<FeedMessage>,
    tx: &async_broadcast::Sender<FeedMessage>,
) -> (message: Result<FeedMessage, FeedError>)
    requires
        broadcast_sender_channel(*tx) == broadcast_receiver_channel(*old(rx)),
    ensures
        broadcast_receiver_channel(*final(rx)) == broadcast_receiver_channel(*old(rx)),
        feed_position_after(
            broadcast_sent(*tx).len(),
            broadcast_capacity(*tx),
            broadcast_position(*old(rx)),
        ) == broadcast_position(*final(rx)),
        feed_yields(
            broadcast_sent(*tx),
            broadcast_capacity(*tx),
            broadcast_position(*old(rx)),
            message,
        ),
{
    match rx.try_recv() {
        Ok(message) => Ok(message),
        Err(async_broadcast::TryRecvError::Overflowed(missed)) => Err(FeedError::Overflowed(missed)),
        Err(async_broadcast::TryRecvError::Empty) => Err(FeedError::Empty),
        Err(async_broadcast::TryRecvError::Closed) => Err(FeedError::Closed),
    }
}

/// Where a receiver stands after it has asked for the next of `count` messages.
pub open spec fn feed_position_after(count: nat, capacity: nat, position: nat) -> nat {
    if position + capacity < count {
        (count - capacity) as nat
    } else if position < count {
        position + 1
    } else {
        position
    }
}

/// What a receiver gets when it asks for the next message.
pub open spec fn feed_yields(
    sent: Seq<Seq<(u64, i32)>>,
    capacity: nat,
    position: nat,
    message: Result<FeedMessage, FeedError>,
) -> bool {
    if position + capacity < sent.len() {
        &&& message is Err
        &&& message->Err_0 is Overflowed
        &&& message->Err_0->Overflowed_0 == sent.len() - capacity - position
    } else if position < sent.len() {
        &&& message is Ok
        &&& message->Ok_0@ == sent[position as int]
    } else {
        message == Err::<FeedMessage, FeedError>(FeedError::Empty)
    }
}

} // verus!
