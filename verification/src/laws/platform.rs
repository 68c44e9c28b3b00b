//! What holds of what the platforms report, and of what they make of it.

use vstd::prelude::*;
use webrtc::peer_connection::sdp::session_description::RTCSessionDescription;

use crate::connection::is_connected;
use crate::connection::CandidateCollector;
use crate::connection::ChannelAction;
use crate::connection::ChannelEvent;
use crate::platform::native;
use crate::platform::native::candidate_text;
use crate::platform::native::description_text;
use crate::platform::native::description_type;
use crate::platform::native::is_candidate;
use crate::platform::native::is_sdp;
use crate::platform::native::GatheredCandidate;
use crate::platform::native::NativeError;
use crate::platform::wasm;
use crate::platform::wasm::DataChannelDict;
use crate::platform::ReportedConnectionState;
use crate::platform::ReportedSdpType;
use crate::types::DataChannelOptions;
use crate::types::ICECandidate;
use crate::types::PeerConnectionState;
use crate::types::SDPType;
use crate::types::SessionDescription;

verus! {

/// A state that is reported keeps its name. Where none is reported, the connection is new.
pub proof fn connection_states_keep_their_names(
    reported: ReportedConnectionState,
    state: PeerConnectionState,
)
    requires
        call_ensures(
            <PeerConnectionState as From<ReportedConnectionState>>::from,
            (reported,),
            state,
        ),
    ensures
        state is Closed <==> reported is Closed,
        state is Connected <==> reported is Connected,
        state is Connecting <==> reported is Connecting,
        state is Disconnected <==> reported is Disconnected,
        state is Failed <==> reported is Failed,
        state is New <==> reported is New || reported is Unspecified,
{
}

/// A peer is told that it is connected where that was reported, and not otherwise.
pub proof fn connected_means_reported_connected(
    reported: ReportedConnectionState,
    state: PeerConnectionState,
    connected: bool,
)
    requires
        call_ensures(
            <PeerConnectionState as From<ReportedConnectionState>>::from,
            (reported,),
            state,
        ),
        call_ensures(is_connected, (state,), connected),
    ensures
        connected <==> reported is Connected,
{
}

/// The type that is reported of a description keeps its name. Where none is reported, it is an
/// answer.
pub proof fn description_types_keep_their_names(reported: ReportedSdpType, sdp_type: SDPType)
    requires
        call_ensures(<SDPType as From<ReportedSdpType>>::from, (reported,), sdp_type),
    ensures
        sdp_type is Offer <==> reported is Offer,
        sdp_type is Pranswer <==> reported is Pranswer,
        sdp_type is Rollback <==> reported is Rollback,
        sdp_type is Answer <==> reported is Answer || reported is Unspecified,
{
}

/// A description for `webrtc` has the text and the type that it was made of. It can be made where
/// its text can be parsed, and to roll back any text will do.
pub proof fn descriptions_are_made_as_they_are(
    value: SessionDescription,
    description: Result<RTCSessionDescription, webrtc::Error>,
)
    requires
        call_ensures(native::rtc_description, (value,), description),
    ensures
        value.sdp_type is Rollback ==> description is Ok,
        !(value.sdp_type is Rollback) ==> (description is Ok <==> is_sdp(value.sdp@)),
        description matches Ok(made) ==> {
            &&& description_text(made) == value.sdp@
            &&& description_type(made) is Offer <==> value.sdp_type is Offer
            &&& description_type(made) is Answer <==> value.sdp_type is Answer
            &&& description_type(made) is Pranswer <==> value.sdp_type is Pranswer
            &&& description_type(made) is Rollback <==> value.sdp_type is Rollback
            &&& !(description_type(made) is Unspecified)
        },
{
}

/// A description that `webrtc` gave keeps its text, and its type keeps its name.
pub proof fn descriptions_are_read_as_they_are(
    description: RTCSessionDescription,
    value: SessionDescription,
)
    requires
        call_ensures(native::session_description, (description,), value),
    ensures
        value.sdp@ == description_text(description),
        value.sdp_type is Offer <==> description_type(description) is Offer,
        value.sdp_type is Pranswer <==> description_type(description) is Pranswer,
        value.sdp_type is Rollback <==> description_type(description) is Rollback,
{
}

/// What was made for `webrtc` is read back as it was.
pub proof fn descriptions_make_the_round_trip(
    value: SessionDescription,
    description: RTCSessionDescription,
    back: SessionDescription,
)
    requires
        call_ensures(
            native::rtc_description,
            (value,),
            Ok::<RTCSessionDescription, webrtc::Error>(description),
        ),
        call_ensures(native::session_description, (description,), back),
    ensures
        back.sdp@ == value.sdp@,
        back.sdp_type == value.sdp_type,
{
}

/// Every candidate that can be put into text is sent on, as that text, for the first media line. One
/// that cannot is passed over. The end of the gathering is sent on.
pub proof fn readable_candidates_are_sent_on(
    candidate: Option<GatheredCandidate>,
    message: Option<Option<ICECandidate>>,
)
    requires
        call_ensures(native::handle_ice_candidate, (candidate,), message),
    ensures
        candidate is None ==> message is Some && message->0 is None,
        candidate matches Some(gathered) ==> {
            &&& message is Some <==> is_candidate(
                gathered.address@,
                gathered.protocol@,
                gathered.typ@,
            )
            &&& message matches Some(sent) ==> {
                &&& sent is Some
                &&& sent->0.candidate@ == candidate_text(
                    gathered.foundation@,
                    gathered.priority,
                    gathered.address@,
                    gathered.protocol@,
                    gathered.port,
                    gathered.typ@,
                    gathered.component,
                    gathered.related_address@,
                    gathered.related_port,
                )
                &&& sent->0.sdp_mid is Some
                &&& sent->0.sdp_mid->0@.len() == 0
                &&& sent->0.sdp_mline_index == Some(0u16)
                &&& sent->0.username_fragment is None
            }
        },
{
}

/// A candidate can be handled that has a priority, or whose component is at most 256, and so can one
/// that cannot be put into text, and the end of the gathering.
pub proof fn usual_candidates_can_be_handled(candidate: Option<GatheredCandidate>)
    requires
        candidate matches Some(gathered) ==> gathered.priority != 0 || gathered.component <= 256
            || !is_candidate(gathered.address@, gathered.protocol@, gathered.typ@),
    ensures
        call_requires(native::handle_ice_candidate, (candidate,)),
{
}

/// A candidate comes back as it was where it can be put into text, has no priority, and has a
/// component over 256. Any other is handled, and sent on where it can be put into text.
pub proof fn odd_candidates_come_back(
    candidate: Option<GatheredCandidate>,
    outcome: Result<Option<Option<ICECandidate>>, GatheredCandidate>,
)
    requires
        call_ensures(native::try_handle_ice_candidate, (candidate,), outcome),
    ensures
        outcome matches Err(unchanged) ==> candidate == Some(unchanged),
        outcome is Err <==> (candidate matches Some(gathered) && gathered.priority == 0
            && gathered.component > 256 && is_candidate(
            gathered.address@,
            gathered.protocol@,
            gathered.typ@,
        )),
        candidate is None ==> outcome == Ok::<Option<Option<ICECandidate>>, GatheredCandidate>(
            Some(None),
        ),
        candidate matches Some(gathered) ==> (outcome matches Ok(message) ==> {
            &&& message is Some <==> is_candidate(
                gathered.address@,
                gathered.protocol@,
                gathered.typ@,
            )
            &&& message matches Some(sent) ==> {
                &&& sent is Some
                &&& sent->0.candidate@ == candidate_text(
                    gathered.foundation@,
                    gathered.priority,
                    gathered.address@,
                    gathered.protocol@,
                    gathered.port,
                    gathered.typ@,
                    gathered.component,
                    gathered.related_address@,
                    gathered.related_port,
                )
                &&& sent->0.sdp_mid is Some
                &&& sent->0.sdp_mid->0@.len() == 0
                &&& sent->0.sdp_mline_index == Some(0u16)
                &&& sent->0.username_fragment is None
            }
        }),
{
}

/// A candidate that was put into text is sent on unchanged, one that could not be is passed over,
/// and the end of the gathering is sent on.
pub proof fn candidates_are_sent_on_unchanged(
    candidate: Option<Result<ICECandidate, webrtc::Error>>,
    message: Option<Option<ICECandidate>>,
)
    requires
        call_ensures(native::candidate_message, (candidate,), message),
    ensures
        message is None <==> (candidate matches Some(Err(_))),
        candidate matches Some(Ok(put)) ==> message == Some(Some(put)),
        candidate is None ==> message is Some && message->0 is None,
{
}

/// On the native platform the gathering ends with a message that says so, and where no message will
/// come any more. Until then every candidate is taken in, behind those before it.
pub proof fn native_gathering_takes_every_candidate(
    collector: &mut CandidateCollector,
    message: Option<Option<ICECandidate>>,
    more: bool,
)
    requires
        call_ensures(native::collect_ice_candidate, (collector, message), more),
    ensures
        more <==> message is Some && message->0 is Some,
        final(collector)@.take(old(collector)@.len() as int) == old(collector)@,
        final(collector)@.len() == old(collector)@.len() + if more {
            1int
        } else {
            0int
        },
        message matches Some(Some(candidate)) ==> final(collector)@.last() == candidate,
{
    assert(final(collector)@.take(old(collector)@.len() as int) =~= old(collector)@);
}

/// In the browser the gathering ends with a message that says so, and it is an error where no
/// message will come. Every candidate is taken in, behind those before it.
pub proof fn browser_gathering_takes_every_candidate(
    collector: &mut CandidateCollector,
    message: Option<Option<ICECandidate>>,
    more: Result<bool, wasm::Error>,
)
    requires
        call_ensures(wasm::collect_ice_candidate, (collector, message), more),
    ensures
        more is Err <==> message is None,
        more matches Err(error) ==> error is MpscRecvError,
        more matches Ok(more) ==> (more <==> message->0 is Some),
        final(collector)@.take(old(collector)@.len() as int) == old(collector)@,
        !(message matches Some(Some(_))) ==> final(collector)@.len() == old(collector)@.len(),
        message matches Some(Some(candidate)) ==> final(collector)@.len() == old(collector)@.len()
            + 1 && final(collector)@.last() == candidate,
{
    assert(final(collector)@.take(old(collector)@.len() as int) =~= old(collector)@);
}

/// On the native platform a channel becomes ready when it is opened, and never unready. The data of
/// every message is handed on unchanged.
pub proof fn native_channels_hand_on_their_messages(event: ChannelEvent, action: ChannelAction)
    requires
        call_ensures(native::handle_data_channel, (event,), action),
    ensures
        event is Open <==> action is SetReady,
        action matches ChannelAction::SetReady(ready) ==> ready,
        event matches ChannelEvent::Message(Some(data)) ==> action == ChannelAction::Deliver(data),
        action is Deliver ==> (event matches ChannelEvent::Message(Some(_))),
{
}

/// In the browser a channel is ready from when it is opened until it is closed. The data of every
/// message that can be read is handed on unchanged.
pub proof fn browser_channels_hand_on_their_messages(event: ChannelEvent, action: ChannelAction)
    requires
        call_ensures(wasm::handle_data_channel, (event,), action),
    ensures
        event is Open <==> action == ChannelAction::SetReady(true),
        event is Close <==> action == ChannelAction::SetReady(false),
        event matches ChannelEvent::Message(Some(data)) ==> action == ChannelAction::Deliver(data),
        action is Deliver ==> (event matches ChannelEvent::Message(Some(_))),
{
}

/// In the browser a message is received as it was sent. It is an error where all senders are gone.
pub proof fn messages_are_received_as_sent<T>(
    message: Option<T>,
    outcome: Result<T, wasm::Error>,
)
    requires
        call_ensures(wasm::received::<T>, (message,), outcome),
    ensures
        outcome is Ok <==> message is Some,
        outcome matches Ok(received) ==> message == Some(received),
        outcome matches Err(error) ==> error is MpscRecvError,
{
}

/// A channel of the browser has the id that it was given, and zero where it was given none.
pub proof fn channels_have_the_id_they_were_given(id: Option<u16>, channel_id: u16)
    requires
        call_ensures(wasm::channel_id, (id,), channel_id),
    ensures
        id is Some ==> channel_id == id->0,
        id is None ==> channel_id == 0,
{
}

/// The browser is given every option of a channel as it was set. A channel has the id that was
/// negotiated, and only such a channel is created as negotiated. Any other has its place for an id.
pub proof fn browser_channels_have_their_options(
    index: usize,
    options: &DataChannelOptions,
    dict: DataChannelDict,
)
    requires
        call_ensures(wasm::data_channel_dict, (index, options), dict),
    ensures
        dict.ordered == options.ordered,
        dict.max_packet_life_time == options.max_packet_life_time,
        dict.max_retransmits == options.max_retransmits,
        dict.protocol == options.protocol,
        dict.negotiated is Some <==> options.negotiated is Some,
        dict.negotiated matches Some(negotiated) ==> negotiated && dict.id == options.negotiated->0,
        options.negotiated is None && index < 0x1_0000 ==> dict.id == index,
        options.negotiated is None ==> (index - dict.id) % 0x1_0000 == 0,
{
}

/// Channels that were not negotiated have different ids, as long as there are ids for all.
pub proof fn browser_channels_are_told_apart(
    i: usize,
    j: usize,
    first: &DataChannelOptions,
    second: &DataChannelOptions,
    first_dict: DataChannelDict,
    second_dict: DataChannelDict,
)
    requires
        call_ensures(wasm::data_channel_dict, (i, first), first_dict),
        call_ensures(wasm::data_channel_dict, (j, second), second_dict),
        first.negotiated is None,
        second.negotiated is None,
        i < j < i + 0x1_0000,
    ensures
        first_dict.id != second_dict.id,
{
}

/// A candidate that the browser gathered is sent on with its text, its media id and its media line
/// index. The end of the gathering is sent on.
pub proof fn browser_candidates_are_sent_on(
    candidate: Option<(String, Option<String>, Option<u16>)>,
    message: Option<ICECandidate>,
)
    requires
        call_ensures(wasm::handle_ice_candidate, (candidate,), message),
    ensures
        message is Some <==> candidate is Some,
        candidate matches Some((text, media_id, line_index)) ==> {
            &&& message->0.candidate == text
            &&& message->0.sdp_mid == media_id
            &&& message->0.sdp_mline_index == line_index
            &&& message->0.username_fragment is None
        },
{
}

/// An error of the browser says the reason that the browser gave, and no two kinds of error say the
/// same.
pub proof fn browser_errors_say_their_reason(error: &wasm::Error, message: String)
    requires
        call_ensures(wasm::Error::message, (error,), message),
    ensures
        error is MpscRecvError ==> message@ == "data channel senders dropped!"@,
        error is DataChannelClosed ==> message@ == "data channel closed!"@,
        *error matches wasm::Error::WebRtcError(reason) ==> message@ == "webrtc error: "@ + reason@,
{
}

/// An error of `tokio` or `webrtc` is carried as it is, under its own name.
pub proof fn native_errors_are_carried(
    received: tokio::sync::mpsc::error::TryRecvError,
    watched: tokio::sync::watch::error::RecvError,
    reported: webrtc::Error,
    errors: (NativeError, NativeError, NativeError),
)
    requires
        call_ensures(
            <NativeError as From<tokio::sync::mpsc::error::TryRecvError>>::from,
            (received,),
            errors.0,
        ),
        call_ensures(
            <NativeError as From<tokio::sync::watch::error::RecvError>>::from,
            (watched,),
            errors.1,
        ),
        call_ensures(<NativeError as From<webrtc::Error>>::from, (reported,), errors.2),
    ensures
        errors.0 == NativeError::MpscTryRecvError(received),
        errors.1 == NativeError::WatchRecvError(watched),
        errors.2 == NativeError::WebRtcError(reported),
{
}

} // verus!
