//! What holds of messages, of how they are carried, and of where they wait.

use vstd::prelude::*;
use vstd::utf8::decode_utf8;
use vstd::utf8::encode_utf8;
use vstd::utf8::valid_utf8;

use crate::signalling::codec::EncodedPayload;
use crate::signalling::codec::SignalPayload;
use crate::signalling::mailbox::Mailbox;
use crate::signalling::mailbox::Signal;
use crate::signalling::mailbox::Undelivered;
use crate::signalling::pb::Change;
use crate::signalling::pb::PeerChange;
use crate::signalling::pb::SignalAnswer;
use crate::signalling::pb::SignalOffer;
use crate::signalling::status::Code;
use crate::signalling::status::Status;

verus! {

/// The number one stands for a removal on the wire. Zero stands for an addition, and so does every
/// number that stands for nothing.
pub proof fn one_stands_for_a_removal(peer_change: &PeerChange, change: Change)
    requires
        call_ensures(PeerChange::change, (peer_change,), change),
    ensures
        change is PeerChangeRemove <==> peer_change.change == 1,
        change is PeerChangeAdd <==> peer_change.change != 1,
{
}

/// An addition of a peer reads as one, and a removal as one.
pub proof fn changes_read_as_they_were_made(
    id: u64,
    added: PeerChange,
    removed: PeerChange,
    addition: Change,
    removal: Change,
)
    requires
        call_ensures(PeerChange::add, (id,), added),
        call_ensures(PeerChange::_remove, (id,), removed),
        call_ensures(PeerChange::change, (&added,), addition),
        call_ensures(PeerChange::change, (&removed,), removal),
    ensures
        added.id == id,
        added.change == 0,
        addition is PeerChangeAdd,
        removed.id == id,
        removed.change == 1,
        removal is PeerChangeRemove,
{
}

/// A status has the code and the message that it was made with.
pub proof fn statuses_have_their_code_and_message(code: Code, message: &str, status: Status)
    requires
        call_ensures(Status::new, (code, message), status),
    ensures
        status.code == code,
        status.message@ == message@,
{
}

/// A signal carries the sender, the candidates and the description of an offer, and gives them back.
pub proof fn offers_are_carried(offer: SignalOffer, signal: Signal, back: SignalOffer)
    requires
        call_ensures(Signal::from_offer, (offer,), signal),
        call_ensures(Signal::into_offer, (signal,), back),
    ensures
        signal.sender_id == offer.offerer_id,
        signal.candidates == offer.candidates,
        signal.desc == offer.offer,
        back == offer,
{
}

/// A signal carries the sender, the candidates and the description of an answer, and gives them
/// back.
pub proof fn answers_are_carried(answer: SignalAnswer, signal: Signal, back: SignalAnswer)
    requires
        call_ensures(Signal::from_answer, (answer,), signal),
        call_ensures(Signal::into_answer, (signal,), back),
    ensures
        signal.sender_id == answer.answerer_id,
        signal.candidates == answer.candidates,
        signal.desc == answer.answer,
        back == answer,
{
}

/// A text that can be counted in sixty-four bits can be carried: by its length, in eight bytes, and
/// its bytes.
pub proof fn texts_are_carried(text: String, bytes: Result<Vec<u8>, bincode::Error>)
    requires
        call_ensures(<String as SignalPayload>::encode, (text,), bytes),
        encode_utf8(text@).len() <= u64::MAX,
    ensures
        bytes is Ok,
        bytes->Ok_0@.len() == 8 + encode_utf8(text@).len(),
        bytes->Ok_0@.skip(8) == encode_utf8(text@),
        vstd::bytes::spec_u64_from_le_bytes(bytes->Ok_0@.take(8)) == encode_utf8(text@).len(),
{
    vstd::bytes::lemma_auto_spec_u64_to_from_le_bytes();
    let utf8 = encode_utf8(text@);
    let length = vstd::bytes::spec_u64_to_le_bytes(utf8.len() as u64);
    assert(bytes->Ok_0@.take(8) =~= length);
    assert(bytes->Ok_0@.skip(8) =~= utf8);
}

/// A text is the same after it was carried.
pub proof fn texts_arrive(
    text: String,
    bytes: Vec<u8>,
    arrived: Result<String, bincode::Error>,
)
    requires
        call_ensures(
            <String as SignalPayload>::encode,
            (text,),
            Ok::<Vec<u8>, bincode::Error>(bytes),
        ),
        call_ensures(<String as SignalPayload>::decode, (bytes,), arrived),
    ensures
        arrived is Ok,
        arrived->Ok_0@ == text@,
{
    <String as SignalPayload>::decoding_inverts_encoding(text@);
}

/// Bytes are read as a text where there are eight bytes of length, at least as many bytes more as
/// they announce, and those are UTF-8. What follows them makes no difference.
pub proof fn texts_are_read(
    bytes: Vec<u8>,
    longer: Vec<u8>,
    text: Result<String, bincode::Error>,
    same: Result<String, bincode::Error>,
)
    requires
        call_ensures(<String as SignalPayload>::decode, (bytes,), text),
        call_ensures(<String as SignalPayload>::decode, (longer,), same),
        bytes@.is_prefix_of(longer@),
    ensures
        text is Ok <==> {
            let length = vstd::bytes::spec_u64_from_le_bytes(bytes@.take(8)) as int;
            &&& bytes@.len() >= 8 + length
            &&& bytes@.len() >= 8
            &&& valid_utf8(bytes@.subrange(8, 8 + length))
        },
        text is Ok ==> {
            let length = vstd::bytes::spec_u64_from_le_bytes(bytes@.take(8)) as int;
            &&& text->Ok_0@ == decode_utf8(bytes@.subrange(8, 8 + length))
            &&& same is Ok
            &&& same->Ok_0@ == text->Ok_0@
        },
{
    if text is Ok {
        let length = vstd::bytes::spec_u64_from_le_bytes(bytes@.take(8)) as int;
        assert(longer@.take(8) =~= bytes@.take(8));
        assert(longer@.subrange(8, 8 + length) =~= bytes@.subrange(8, 8 + length));
    }
}

/// What was put into bytes beforehand is carried as it is, both ways.
pub proof fn encoded_payloads_are_carried(
    payload: EncodedPayload,
    sent: Result<Vec<u8>, bincode::Error>,
    bytes: Vec<u8>,
    received: Result<EncodedPayload, bincode::Error>,
)
    requires
        call_ensures(<EncodedPayload as SignalPayload>::encode, (payload,), sent),
        call_ensures(<EncodedPayload as SignalPayload>::decode, (bytes,), received),
    ensures
        sent is Ok,
        sent->Ok_0@ == payload.bytes@,
        received is Ok,
        received->Ok_0.bytes@ == bytes@,
{
}

/// A mailbox starts empty.
pub proof fn mailboxes_start_empty(mailbox: Mailbox)
    requires
        call_ensures(Mailbox::new, (), mailbox),
    ensures
        mailbox.wf(),
        mailbox@.len() == 0,
{
}

/// A mailbox takes a message while fewer than sixteen wait, behind those that wait, and is full
/// otherwise. What waits stays as it is.
pub proof fn mailboxes_hold_sixteen_messages(
    mailbox: &mut Mailbox,
    message: Option<Signal>,
    outcome: Result<(), Undelivered>,
)
    requires
        call_ensures(Mailbox::put, (mailbox, message), outcome),
    ensures
        outcome is Ok <==> old(mailbox)@.len() < 16,
        outcome matches Err(error) ==> error is Full,
        final(mailbox)@.take(old(mailbox)@.len() as int) == old(mailbox)@,
        outcome is Err ==> final(mailbox)@.len() == old(mailbox)@.len(),
        outcome is Ok ==> final(mailbox)@.len() == old(mailbox)@.len() + 1 && final(mailbox)@.last()
            == message,
{
    assert(final(mailbox)@.take(old(mailbox)@.len() as int) =~= old(mailbox)@);
}

/// The message that has waited longest is taken first. The others wait on, in their order.
pub proof fn mailboxes_give_the_oldest_message(
    mailbox: &mut Mailbox,
    message: Option<Option<Signal>>,
)
    requires
        call_ensures(Mailbox::take, (mailbox,), message),
    ensures
        message is Some <==> old(mailbox)@.len() > 0,
        message matches Some(taken) ==> old(mailbox)@ == seq![taken] + final(mailbox)@,
        message is None ==> final(mailbox)@.len() == 0,
{
    if message is Some {
        assert(old(mailbox)@ =~= seq![message->0] + final(mailbox)@);
    }
}

} // verus!
