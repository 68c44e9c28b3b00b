//! What holds of clients: how they are built, and the requests that they make.

use core::time::Duration;

use vstd::prelude::*;
use vstd::utf8::encode_utf8;

use crate::signalling::client::duration_nanos;
use crate::signalling::client::is_tls_config;
use crate::signalling::client::is_uri;
use crate::signalling::client::timeout_text;
use crate::signalling::client::ClientError;
use crate::signalling::client::ClientResult;
use crate::signalling::client::Request;
use crate::signalling::client::RtcSignallingClient;
use crate::signalling::client::RtcSignallingClientBuilder;
use crate::signalling::client::TlsSettings;
use crate::signalling::codec::SignalPayload;
use crate::signalling::pb::AdvertiseReq;
use crate::signalling::pb::AdvertiseRsp;
use crate::signalling::pb::AnswerListenerReq;
use crate::signalling::pb::OfferListenerReq;
use crate::signalling::pb::PeerDiscoverReq;
use crate::signalling::pb::PeerDiscoverRsp;
use crate::signalling::pb::PeerId;
use crate::signalling::pb::PeerListenerReq;
use crate::signalling::pb::SignalAnswerReq;
use crate::signalling::pb::SignalOfferReq;
use crate::signalling::pem::dashes;
use crate::signalling::status::Status;
use crate::text::decimal;
use crate::text::decimal_value;
use crate::text::decimal_value_of_decimal;

verus! {

/// A timeout on the wire is the number of whole units in it, and the letter of the unit: the finest
/// in which the number has at most eight digits.
pub proof fn timeouts_are_in_the_finest_unit(timeout: Duration, unit: nat, finer: nat)
    requires
        duration_nanos(timeout) / 3_600_000_000_000 < 100_000_000,
        timeout_text(timeout).last() == 'n' ==> unit == 1 && finer == 0,
        timeout_text(timeout).last() == 'u' ==> unit == 1_000 && finer == 1,
        timeout_text(timeout).last() == 'm' ==> unit == 1_000_000 && finer == 1_000,
        timeout_text(timeout).last() == 'S' ==> unit == 1_000_000_000 && finer == 1_000_000,
        timeout_text(timeout).last() == 'M' ==> unit == 60_000_000_000 && finer == 1_000_000_000,
        timeout_text(timeout).last() == 'H' ==> unit == 3_600_000_000_000 && finer
            == 60_000_000_000,
    ensures
        seq!['n', 'u', 'm', 'S', 'M', 'H'].contains(timeout_text(timeout).last()),
        timeout_text(timeout).drop_last() == decimal(duration_nanos(timeout) as nat / unit),
        decimal_value(timeout_text(timeout).drop_last()) == duration_nanos(timeout) as nat / unit,
        duration_nanos(timeout) as nat / unit < 100_000_000,
        finer > 0 ==> duration_nanos(timeout) as nat / finer >= 100_000_000,
{
    let nanos = duration_nanos(timeout) as nat;
    let secs = nanos / 1_000_000_000;
    assert(secs / 60 == nanos / 60_000_000_000);
    assert(secs / 3_600 == nanos / 3_600_000_000_000);
    let units = seq!['n', 'u', 'm', 'S', 'M', 'H'];
    assert(units[0] == 'n' && units[1] == 'u' && units[2] == 'm' && units[3] == 'S' && units[4]
        == 'M' && units[5] == 'H');
    let text = timeout_text(timeout);
    assert(text.drop_last() =~= decimal(nanos / unit));
    decimal_value_of_decimal(nanos / unit);
}

/// A new builder has a deadline of ten seconds, and no TLS.
pub proof fn clients_default_to_ten_seconds(builder: RtcSignallingClientBuilder)
    requires
        call_ensures(<RtcSignallingClientBuilder as Default>::default, (), builder),
    ensures
        duration_nanos(builder@.timeout) == 10 * 1_000_000_000,
        !builder@.tls_enabled,
        builder@.domain is None,
        builder@.tls_ca_pem is None,
{
}

/// Setting the deadline changes nothing else.
pub proof fn deadlines_are_set(
    builder: RtcSignallingClientBuilder,
    timeout: Duration,
    after: RtcSignallingClientBuilder,
)
    requires
        call_ensures(RtcSignallingClientBuilder::set_timeout, (builder, timeout), after),
    ensures
        after@.timeout == timeout,
        after@.tls_enabled == builder@.tls_enabled,
        after@.domain == builder@.domain,
        after@.tls_ca_pem == builder@.tls_ca_pem,
{
}

/// Enabling TLS takes the domain and the certificates, and leaves the deadline.
pub proof fn tls_is_set(
    builder: RtcSignallingClientBuilder,
    domain: String,
    ca_pem: String,
    after: RtcSignallingClientBuilder,
)
    requires
        call_ensures(RtcSignallingClientBuilder::set_tls, (builder, domain, ca_pem), after),
    ensures
        after@.timeout == builder@.timeout,
        after@.tls_enabled,
        after@.domain == Some(domain@),
        after@.tls_ca_pem == Some(ca_pem@),
{
}

/// A timeout fits that has at most eight digits in hours.
pub proof fn timeouts_fit_in_eight_digits(builder: &RtcSignallingClientBuilder, fits: bool)
    requires
        call_ensures(RtcSignallingClientBuilder::timeout_fits, (builder,), fits),
    ensures
        fits <==> duration_nanos(builder@.timeout) / 3_600_000_000_000 < 100_000_000,
{
}

/// A client can be built whose timeout fits and, where TLS is used, whose certificates hold dashes
/// that can be counted.
pub proof fn usual_clients_can_be_built(
    builder: &RtcSignallingClientBuilder,
    addr: String,
    can: bool,
)
    requires
        call_ensures(RtcSignallingClientBuilder::can_build, (builder,), can),
    ensures
        can <==> {
            &&& duration_nanos(builder@.timeout) / 3_600_000_000_000 < 100_000_000
            &&& builder@.tls_enabled && builder@.domain is Some ==> (
            builder@.tls_ca_pem matches Some(pem) ==> dashes(encode_utf8(pem)) <= 0x7fff_ffff)
        },
        can ==> call_requires(RtcSignallingClientBuilder::build, (builder, addr)),
        duration_nanos(builder@.timeout) / 3_600_000_000_000 < 100_000_000 ==> call_requires(
            RtcSignallingClientBuilder::build_web,
            (builder, addr),
        ),
{
}

/// A client has the address and the deadline that were set, for connecting and for every request,
/// with TLS or without. TLS is used where it was enabled, with the domain and the certificates that
/// were set. A client is refused where the address makes no URI, and where TLS is used and the
/// domain or the certificates are refused, and there alone.
pub proof fn clients_have_what_was_set(
    builder: &RtcSignallingClientBuilder,
    addr: String,
    client: ClientResult<RtcSignallingClient>,
)
    requires
        call_ensures(RtcSignallingClientBuilder::build, (builder, addr), client),
    ensures
        client matches Ok(built) ==> {
            &&& built@.connect_timeout == builder@.timeout
            &&& built@.grpc_timeout == timeout_text(builder@.timeout)
        },
        builder@.tls_enabled && builder@.domain is Some && builder@.tls_ca_pem is Some ==> {
            &&& client is Ok <==> is_uri("https://"@ + addr@) && is_tls_config(
                builder@.domain->0,
                builder@.tls_ca_pem->0,
            )
            &&& client matches Ok(built) ==> built@.uri == "https://"@ + addr@ && built@.tls == Some(
                (builder@.domain->0, builder@.tls_ca_pem->0),
            )
            &&& client matches Err(error) ==> if is_uri("https://"@ + addr@) {
                error is TonicTransport
            } else {
                error is InvalidUrl
            }
        },
        !(builder@.tls_enabled && builder@.domain is Some && builder@.tls_ca_pem is Some) ==> {
            &&& client is Ok <==> is_uri("http://"@ + addr@)
            &&& client matches Ok(built) ==> built@.uri == "http://"@ + addr@ && built@.tls is None
            &&& client matches Err(error) ==> error is InvalidUrl
        },
{
}

/// No client comes of a timeout that does not fit, nor of dashes that cannot be counted. Otherwise a
/// client comes, or is refused, as where nothing stands in the way.
pub proof fn clients_are_tried(
    builder: &RtcSignallingClientBuilder,
    addr: String,
    tried: Option<ClientResult<RtcSignallingClient>>,
    client: ClientResult<RtcSignallingClient>,
)
    requires
        call_ensures(RtcSignallingClientBuilder::try_build, (builder, addr), tried),
        tried is Some ==> tried->0 == client,
    ensures
        tried is Some <==> {
            &&& duration_nanos(builder@.timeout) / 3_600_000_000_000 < 100_000_000
            &&& builder@.tls_enabled && builder@.domain is Some ==> (
            builder@.tls_ca_pem matches Some(pem) ==> dashes(encode_utf8(pem)) <= 0x7fff_ffff)
        },
        tried is Some ==> {
            &&& client matches Ok(built) ==> {
                &&& built@.connect_timeout == builder@.timeout
                &&& built@.grpc_timeout == timeout_text(builder@.timeout)
            }
            &&& builder@.tls_enabled && builder@.domain is Some && builder@.tls_ca_pem is Some ==> {
                &&& client is Ok <==> is_uri("https://"@ + addr@) && is_tls_config(
                    builder@.domain->0,
                    builder@.tls_ca_pem->0,
                )
                &&& client matches Ok(built) ==> built@.uri == "https://"@ + addr@ && built@.tls == Some(
                    (builder@.domain->0, builder@.tls_ca_pem->0),
                )
                &&& client matches Err(error) ==> if is_uri("https://"@ + addr@) {
                    error is TonicTransport
                } else {
                    error is InvalidUrl
                }
            }
            &&& !(builder@.tls_enabled && builder@.domain is Some && builder@.tls_ca_pem is Some) ==> {
                &&& client is Ok <==> is_uri("http://"@ + addr@)
                &&& client matches Ok(built) ==> built@.uri == "http://"@ + addr@ && built@.tls is None
                &&& client matches Err(error) ==> error is InvalidUrl
            }
        },
{
}

/// A client in the browser has the address and the deadline that were set. Its address says whether
/// TLS is used, which the browser looks after.
pub proof fn browser_clients_have_what_was_set(
    builder: &RtcSignallingClientBuilder,
    addr: String,
    client: RtcSignallingClient,
)
    requires
        call_ensures(RtcSignallingClientBuilder::build_web, (builder, addr), client) || call_ensures(
            RtcSignallingClientBuilder::try_build_web,
            (builder, addr),
            Some(client),
        ),
    ensures
        client@.connect_timeout == builder@.timeout,
        client@.grpc_timeout == timeout_text(builder@.timeout),
        client@.tls is None,
        builder@.tls_enabled ==> client@.uri == "https://"@ + addr@,
        !builder@.tls_enabled ==> client@.uri == "http://"@ + addr@,
{
}

/// No client comes of a timeout that does not fit, and one comes of any other.
pub proof fn browser_clients_are_tried(
    builder: &RtcSignallingClientBuilder,
    addr: String,
    client: Option<RtcSignallingClient>,
)
    requires
        call_ensures(RtcSignallingClientBuilder::try_build_web, (builder, addr), client),
    ensures
        client is Some <==> duration_nanos(builder@.timeout) / 3_600_000_000_000 < 100_000_000,
{
}

/// Every request carries the deadline that was set, with TLS or without, whatever was set after it.
pub proof fn requests_carry_the_deadline_that_was_set(
    builder: RtcSignallingClientBuilder,
    timeout: Duration,
    timed: RtcSignallingClientBuilder,
    domain: String,
    ca_pem: String,
    secured: RtcSignallingClientBuilder,
    addr: String,
    plain: RtcSignallingClient,
    secure: RtcSignallingClient,
    requests: (Request<AdvertiseReq>, Request<AdvertiseReq>),
)
    requires
        call_ensures(RtcSignallingClientBuilder::set_timeout, (builder, timeout), timed),
        call_ensures(RtcSignallingClientBuilder::set_tls, (timed, domain, ca_pem), secured),
        call_ensures(
            RtcSignallingClientBuilder::build,
            (&timed, addr),
            Ok::<RtcSignallingClient, ClientError>(plain),
        ),
        call_ensures(
            RtcSignallingClientBuilder::build,
            (&secured, addr),
            Ok::<RtcSignallingClient, ClientError>(secure),
        ),
        call_ensures(RtcSignallingClient::advertise, (&plain,), requests.0),
        call_ensures(RtcSignallingClient::advertise, (&secure,), requests.1),
    ensures
        requests.0.grpc_timeout@ == timeout_text(timeout),
        requests.1.grpc_timeout@ == timeout_text(timeout),
        secure@.tls == Some((domain@, ca_pem@)),
        secure@.uri == "https://"@ + addr@,
{
}

/// A copy of a client is as the client is.
pub proof fn clients_are_copied(client: &RtcSignallingClient, copy: RtcSignallingClient)
    requires
        call_ensures(RtcSignallingClient::duplicate, (client,), copy),
    ensures
        copy@.uri == client@.uri,
        copy@.tls == client@.tls,
        copy@.connect_timeout == client@.connect_timeout,
        copy@.grpc_timeout == client@.grpc_timeout,
{
}

/// What a client was built with is read as it was.
pub proof fn clients_are_read_as_they_were_built(
    client: &RtcSignallingClient,
    uri: &String,
    tls: &Option<TlsSettings>,
    timeout: Duration,
)
    requires
        call_ensures(RtcSignallingClient::uri, (client,), uri),
        call_ensures(RtcSignallingClient::tls, (client,), tls),
        call_ensures(RtcSignallingClient::connect_timeout, (client,), timeout),
    ensures
        uri@ == client@.uri,
        *tls is Some <==> client@.tls is Some,
        *tls matches Some(tls) ==> client@.tls == Some((tls.domain@, tls.ca_pem@)),
        timeout == client@.connect_timeout,
{
}

/// A request has the message that it was made of, and the deadline of the client.
pub proof fn requests_have_their_message_and_deadline<M>(
    client: &RtcSignallingClient,
    message: M,
    request: Request<M>,
)
    requires
        call_ensures(RtcSignallingClient::build_request::<M>, (client, message), request),
    ensures
        request.message == message,
        request.grpc_timeout@ == client@.grpc_timeout,
{
}

/// A peer asks under its own id, with the deadline of the client.
pub proof fn peers_ask_under_their_own_id(
    client: &RtcSignallingClient,
    id: u64,
    discover: Request<PeerDiscoverReq>,
    peers: Request<PeerListenerReq>,
    offers: Request<OfferListenerReq>,
    answers: Request<AnswerListenerReq>,
)
    requires
        call_ensures(RtcSignallingClient::_peer_discover, (client, id), discover),
        call_ensures(RtcSignallingClient::open_peer_listener, (client, id), peers),
        call_ensures(RtcSignallingClient::open_offer_listener, (client, id), offers),
        call_ensures(RtcSignallingClient::open_answer_listener, (client, id), answers),
    ensures
        discover.message.local_peer == Some(PeerId { id }),
        discover.grpc_timeout@ == client@.grpc_timeout,
        peers.message.local_peer == Some(PeerId { id }),
        peers.grpc_timeout@ == client@.grpc_timeout,
        offers.message.local_peer == Some(PeerId { id }),
        offers.grpc_timeout@ == client@.grpc_timeout,
        answers.message.local_peer == Some(PeerId { id }),
        answers.grpc_timeout@ == client@.grpc_timeout,
{
}

/// The id that a server assigned is taken as it is.
pub proof fn assigned_ids_are_taken(response: AdvertiseRsp, id: u64)
    requires
        call_ensures(RtcSignallingClient::advertised, (response,), id),
    ensures
        response.local_peer matches Some(peer) ==> id == peer.id,
        response.local_peer is Some ==> call_requires(RtcSignallingClient::advertised, (response,)),
{
}

/// Every peer that a server named is taken, in the order of the names.
pub proof fn named_peers_are_taken(response: PeerDiscoverRsp, ids: Vec<u64>)
    requires
        call_ensures(RtcSignallingClient::_peers_discovered, (response,), ids),
    ensures
        ids@.len() == response.remote_peers@.len(),
        forall|i: int|
            0 <= i < ids@.len() ==> #[trigger] ids@[i] == response.remote_peers@[i].id,
{
}

/// An answer is forwarded to the peer that it is for, from the peer that makes it, with its
/// candidates, and with the deadline of the client. It is refused where it cannot be carried, or its
/// candidates cannot, and there alone. What is sent can be read back.
pub proof fn answers_are_forwarded<A: SignalPayload, C: SignalPayload>(
    client: &RtcSignallingClient,
    id: u64,
    remote_id: u64,
    answer: A,
    candidates: C,
    request: ClientResult<Request<SignalAnswerReq>>,
)
    requires
        call_ensures(
            RtcSignallingClient::signal_answer::<A, C>,
            (client, id, remote_id, answer, candidates),
            request,
        ),
    ensures
        request is Ok <==> A::encoding(answer.model()) is Some && C::encoding(candidates.model()) is Some,
        request matches Err(error) ==> error is Bincode,
        request matches Ok(sent) ==> {
            &&& sent.grpc_timeout@ == client@.grpc_timeout
            &&& sent.message.offerer_peer == Some(PeerId { id: remote_id })
            &&& sent.message.answer_signal is Some
            &&& sent.message.answer_signal->0.answerer_id == id
            &&& Some(sent.message.answer_signal->0.answer@) == A::encoding(answer.model())
            &&& Some(sent.message.answer_signal->0.candidates@) == C::encoding(candidates.model())
            &&& A::decoding(sent.message.answer_signal->0.answer@) == Some(answer.model())
            &&& C::decoding(sent.message.answer_signal->0.candidates@) == Some(candidates.model())
        },
{
    A::decoding_inverts_encoding(answer.model());
    C::decoding_inverts_encoding(candidates.model());
}

/// An offer is forwarded to the peer that it is for, from the peer that makes it, with its
/// candidates, and with the deadline of the client. It is refused where it cannot be carried, or its
/// candidates cannot, and there alone. What is sent can be read back.
pub proof fn offers_are_forwarded<O: SignalPayload, C: SignalPayload>(
    client: &RtcSignallingClient,
    id: u64,
    remote_id: u64,
    offer: O,
    candidates: C,
    request: ClientResult<Request<SignalOfferReq>>,
)
    requires
        call_ensures(
            RtcSignallingClient::signal_offer::<O, C>,
            (client, id, remote_id, offer, candidates),
            request,
        ),
    ensures
        request is Ok <==> O::encoding(offer.model()) is Some && C::encoding(candidates.model()) is Some,
        request matches Err(error) ==> error is Bincode,
        request matches Ok(sent) ==> {
            &&& sent.grpc_timeout@ == client@.grpc_timeout
            &&& sent.message.answerer_peer == Some(PeerId { id: remote_id })
            &&& sent.message.offer_signal is Some
            &&& sent.message.offer_signal->0.offerer_id == id
            &&& Some(sent.message.offer_signal->0.offer@) == O::encoding(offer.model())
            &&& Some(sent.message.offer_signal->0.candidates@) == C::encoding(candidates.model())
            &&& O::decoding(sent.message.offer_signal->0.offer@) == Some(offer.model())
            &&& C::decoding(sent.message.offer_signal->0.candidates@) == Some(candidates.model())
        },
{
    O::decoding_inverts_encoding(offer.model());
    C::decoding_inverts_encoding(candidates.model());
}

/// An error that carries no other says what it is. One that carries another leaves it to that.
pub proof fn client_errors_say_what_they_are(error: &ClientError, message: Option<String>)
    requires
        call_ensures(ClientError::message, (error,), message),
    ensures
        error is PreExistingPeerConnection ==> message is Some && message->0@
            == "Pre-existing connection with peer!"@,
        error is ListenerClosed ==> message is Some && message->0@
            == "Listener closed unexpectedly!"@,
        error is ListenerUnavailable ==> message is Some && message->0@ == "Listener unavailable!"@,
        error is InvalidUrl ==> message is Some && message->0@ == "Invalid URL"@,
        message is None <==> error is Bincode || error is TonicStatus || error is TonicTransport
            || error is ExternalFn,
{
}

/// An error from elsewhere is carried as it is, under its own name.
pub proof fn client_errors_are_carried(
    bincode: bincode::Error,
    status: Status,
    transport: tonic::transport::Error,
    callback: anyhow::Error,
    carried: (ClientError, ClientError, ClientError, ClientError),
)
    requires
        call_ensures(<ClientError as From<bincode::Error>>::from, (bincode,), carried.0),
        call_ensures(<ClientError as From<Status>>::from, (status,), carried.1),
        call_ensures(<ClientError as From<tonic::transport::Error>>::from, (transport,), carried.2),
        call_ensures(<ClientError as From<anyhow::Error>>::from, (callback,), carried.3),
    ensures
        carried.0 == ClientError::Bincode(bincode),
        carried.1 == ClientError::TonicStatus(status),
        carried.2 == ClientError::TonicTransport(transport),
        carried.3 == ClientError::ExternalFn(callback),
{
}

} // verus!
