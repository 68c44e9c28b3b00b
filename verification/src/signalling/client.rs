//! A client of a signalling server: how it is configured, and the requests it makes.

use core::time::Duration;

use anyhow::Error as CallbackFailure;
use tonic::transport::Error as TransportFailure;
use vstd::prelude::*;
use vstd::std_specs::convert::FromSpecImpl;
use vstd::string::StringExecFns;

use crate::signalling::codec::SignalPayload;
use crate::signalling::pb::AdvertiseReq;
use crate::signalling::pb::AdvertiseRsp;
use crate::signalling::pb::AnswerListenerReq;
use crate::signalling::pb::OfferListenerReq;
use crate::signalling::pb::PeerDiscoverReq;
use crate::signalling::pb::PeerDiscoverRsp;
use crate::signalling::pb::PeerId;
use crate::signalling::pb::PeerListenerReq;
use crate::signalling::pb::SignalAnswer;
use crate::signalling::pb::SignalAnswerReq;
use crate::signalling::pb::SignalOffer;
use crate::signalling::pb::SignalOfferReq;
use crate::signalling::pem::dashes_are_countable;
use crate::signalling::pem::has_countable_dashes;
use crate::signalling::status::Status;

verus! {

/// Default deadline for gRPC method response, in seconds.
pub const DEFAULT_RESPONSE_DEADLINE: u64 = 10;

/// What can go wrong in the transport of `tonic`.
#[verifier::external_type_specification]
#[verifier::external_body]
pub struct ExTonicTransportError(TransportFailure);

/// An error that a callback came back with.
#[verifier::external_type_specification]
#[verifier::external_body]
pub struct ExAnyhowError(CallbackFailure);

/// Signalling client error.
#[derive(Debug)]
pub enum ClientError {
    /// Bincode encoding/decoding error.
    Bincode(bincode::Error),
    /// Pre-existing peer connection error.
    PreExistingPeerConnection,
    /// Listener closed error.
    ListenerClosed,
    /// Listener unavailable error.
    ListenerUnavailable,
    /// Invalid URL error.
    InvalidUrl,
    /// Tonic gRPC method error.
    TonicStatus(Status),
    /// Tonic transport layer error.
    TonicTransport(tonic::transport::Error),
    /// Externally provided callback error.
    ExternalFn(anyhow::Error),
}

impl ClientError {
    /// What the error says, or none where it only carries another error, which speaks for itself.
    pub fn message(&self) -> (message: Option<String>)
        ensures
            optional_text(message) == match *self {
                ClientError::PreExistingPeerConnection => Some(
                    "Pre-existing connection with peer!"@,
                ),
                ClientError::ListenerClosed => Some("Listener closed unexpectedly!"@),
                ClientError::ListenerUnavailable => Some("Listener unavailable!"@),
                ClientError::InvalidUrl => Some("Invalid URL"@),
                _ => None,
            },
    {
        match self {
            ClientError::PreExistingPeerConnection => Some(
                "Pre-existing connection with peer!".to_owned(),
            ),
            ClientError::ListenerClosed => Some("Listener closed unexpectedly!".to_owned()),
            ClientError::ListenerUnavailable => Some("Listener unavailable!".to_owned()),
            ClientError::InvalidUrl => Some("Invalid URL".to_owned()),
            _ => None,
        }
    }
}

impl From<bincode::Error> for ClientError {
    fn from(error: bincode::Error) -> (converted: Self) {
        ClientError::Bincode(error)
    }
}

impl FromSpecImpl<bincode::Error> for ClientError {
    open spec fn obeys_from_spec() -> bool {
        true
    }

    open spec fn from_spec(error: bincode::Error) -> Self {
        ClientError::Bincode(error)
    }
}

impl From<Status> for ClientError {
    fn from(status: Status) -> (converted: Self) {
        ClientError::TonicStatus(status)
    }
}

impl FromSpecImpl<Status> for ClientError {
    open spec fn obeys_from_spec() -> bool {
        true
    }

    open spec fn from_spec(status: Status) -> Self {
        ClientError::TonicStatus(status)
    }
}

impl From<tonic::transport::Error> for ClientError {
    fn from(error: tonic::transport::Error) -> (converted: Self) {
        ClientError::TonicTransport(error)
    }
}

impl FromSpecImpl<tonic::transport::Error> for ClientError {
    open spec fn obeys_from_spec() -> bool {
        true
    }

    open spec fn from_spec(error: tonic::transport::Error) -> Self {
        ClientError::TonicTransport(error)
    }
}

impl From<anyhow::Error> for ClientError {
    fn from(error: anyhow::Error) -> (converted: Self) {
        ClientError::ExternalFn(error)
    }
}

impl FromSpecImpl<anyhow::Error> for ClientError {
    open spec fn obeys_from_spec() -> bool {
        true
    }

    open spec fn from_spec(error: anyhow::Error) -> Self {
        ClientError::ExternalFn(error)
    }
}

/// Signalling client result type.
pub type ClientResult<T> = Result<T, ClientError>;

/// A duration in nanoseconds, as `Duration::as_nanos` gives it.
pub uninterp spec fn duration_nanos(duration: Duration) -> u128;

/// `Duration::from_secs` makes a duration of that many whole seconds.
pub assume_specification[ Duration::from_secs ](secs: u64) -> (duration: Duration)
    ensures
        duration_nanos(duration) == secs * 1_000_000_000,
;

/// `Duration::as_nanos` gives the nanoseconds of a duration.
pub assume_specification[ Duration::as_nanos ](duration: &Duration) -> (nanos: u128)
    ensures
        nanos == duration_nanos(*duration),
;

/// The largest number that a timeout on the wire may have.
pub const MAX_TIMEOUT_VALUE: u64 = 99_999_999;

/// A timeout as it goes over the wire: a number and a letter for its unit, the finest unit in
/// which the number is no larger than allowed.
pub open spec fn timeout_text(duration: Duration) -> Seq<char> {
    let nanos = duration_nanos(duration) as nat;
    let secs = nanos / 1_000_000_000;
    if nanos <= MAX_TIMEOUT_VALUE {
        crate::text::decimal(nanos).push('n')
    } else if nanos / 1_000 <= MAX_TIMEOUT_VALUE {
        crate::text::decimal(nanos / 1_000).push('u')
    } else if nanos / 1_000_000 <= MAX_TIMEOUT_VALUE {
        crate::text::decimal(nanos / 1_000_000).push('m')
    } else if secs <= MAX_TIMEOUT_VALUE {
        crate::text::decimal(secs).push('S')
    } else if secs / 60 <= MAX_TIMEOUT_VALUE {
        crate::text::decimal(secs / 60).push('M')
    } else {
        crate::text::decimal(secs / 3_600).push('H')
    }
}

/// Whether a timeout can go over the wire: in hours it is no larger than allowed.
pub open spec fn timeout_fits(duration: Duration) -> bool {
    duration_nanos(duration) / 3_600_000_000_000 <= MAX_TIMEOUT_VALUE
}

/// Calls `tonic::Request::set_timeout` and reads back the header that it sets: the timeout in the
/// finest unit in which its number has at most eight digits. It panics on a timeout that has more
/// than eight digits even in hours.
#[verifier::external_body]
fn tonic_timeout(timeout: Duration) -> (header: String)
    requires
        timeout_fits(timeout),
    ensures
        header@ == timeout_text(timeout),
{
    let mut request = tonic::Request::new(());
    request.set_timeout(timeout);
    let header = request.metadata().get("grpc-timeout").expect("a timeout was set");
    header.to_str().expect("the timeout is ASCII").to_string()
}

/// Whether `tonic::transport::Channel::from_shared` accepts a text as a URI.
pub uninterp spec fn is_uri(text: Seq<char>) -> bool;

/// Calls `tonic::transport::Channel::from_shared`, which parses a URI and does nothing else: whether
/// it succeeds depends on the text alone.
#[verifier::external_body]
fn tonic_accepts_uri(uri: &String) -> (accepted: bool)
    ensures
        accepted == is_uri(uri@),
{
    tonic::transport::Channel::from_shared(uri.clone()).is_ok()
}

/// Whether `tonic::transport::Endpoint::tls_config` accepts a domain and the certificates of an
/// authority in PEM.
pub uninterp spec fn is_tls_config(domain: Seq<char>, ca_pem: Seq<char>) -> bool;

/// Calls `tonic::transport::Endpoint::tls_config` on an endpoint for a URI. It parses the domain and
/// the certificates; given a domain it does not look at the URI, so whether it succeeds depends on
/// the domain and the certificates alone. It counts the dashes of the certificates in an `i32`. What
/// it says in its error is left open.
#[verifier::external_body]
fn tonic_tls_config(uri: &String, domain: &String, ca_pem: &String) -> (outcome: Result<
    (),
    tonic::transport::Error,
>)
    requires
        is_uri(uri@),
        has_countable_dashes(ca_pem@),
    ensures
        outcome is Ok <==> is_tls_config(domain@, ca_pem@),
{
    let certificate = tonic::transport::Certificate::from_pem(ca_pem);
    let config = tonic::transport::ClientTlsConfig::new().domain_name(domain.clone()).ca_certificate(
        certificate,
    );
    tonic::transport::Endpoint::from_shared(uri.clone())?.tls_config(config).map(|_endpoint| ())
}

/// How the server is known to be itself.
#[derive(Debug)]
pub struct TlsSettings {
    /// The domain that the certificate of the server is for.
    pub domain: String,
    /// The certificates of the authority that signed it, in PEM.
    pub ca_pem: String,
}

/// How a signalling client is configured.
#[verifier::ext_equal]
pub struct ClientSettings {
    pub timeout: Duration,
    pub tls_enabled: bool,
    pub domain: Option<Seq<char>>,
    pub tls_ca_pem: Option<Seq<char>>,
}

/// Builder of signalling clients.
#[derive(Debug)]
pub struct RtcSignallingClientBuilder {
    timeout: Duration,
    tls_enabled: bool,
    domain: Option<String>,
    tls_ca_pem: Option<String>,
}

/// The text of an optional string.
pub open spec fn optional_text(text: Option<String>) -> Option<Seq<char>> {
    match text {
        Some(text) => Some(text@),
        None => None,
    }
}

impl View for RtcSignallingClientBuilder {
    type V = ClientSettings;

    closed spec fn view(&self) -> ClientSettings {
        ClientSettings {
            timeout: self.timeout,
            tls_enabled: self.tls_enabled,
            domain: optional_text(self.domain),
            tls_ca_pem: optional_text(self.tls_ca_pem),
        }
    }
}

impl Default for RtcSignallingClientBuilder {
    /// A deadline of ten seconds, and no TLS.
    fn default() -> (builder: Self)
        ensures
            duration_nanos(builder@.timeout) == DEFAULT_RESPONSE_DEADLINE * 1_000_000_000,
            !builder@.tls_enabled,
            builder@.domain is None,
            builder@.tls_ca_pem is None,
    {
        RtcSignallingClientBuilder {
            timeout: Duration::from_secs(DEFAULT_RESPONSE_DEADLINE),
            tls_enabled: false,
            domain: None,
            tls_ca_pem: None,
        }
    }
}

/// Whether this is what comes of building a client for the server at an address: TLS is used where
/// it was enabled, the address must make a URI, and the domain and the certificates must be
/// accepted.
pub open spec fn is_client_for(
    settings: ClientSettings,
    addr: Seq<char>,
    client: ClientResult<RtcSignallingClient>,
) -> bool {
    match (settings.tls_enabled, settings.domain, settings.tls_ca_pem) {
        (true, Some(domain), Some(ca_pem)) => {
            if !is_uri("https://"@ + addr) {
                client matches Err(ClientError::InvalidUrl)
            } else if !is_tls_config(domain, ca_pem) {
                client matches Err(ClientError::TonicTransport(_))
            } else {
                &&& client is Ok
                &&& client->Ok_0@ == (ClientView {
                    uri: "https://"@ + addr,
                    tls: Some((domain, ca_pem)),
                    connect_timeout: settings.timeout,
                    grpc_timeout: timeout_text(settings.timeout),
                })
            }
        },
        _ => {
            if !is_uri("http://"@ + addr) {
                client matches Err(ClientError::InvalidUrl)
            } else {
                &&& client is Ok
                &&& client->Ok_0@ == (ClientView {
                    uri: "http://"@ + addr,
                    tls: None,
                    connect_timeout: settings.timeout,
                    grpc_timeout: timeout_text(settings.timeout),
                })
            }
        },
    }
}

/// The client that runs in a browser, for the server at an address.
pub open spec fn web_client_for(settings: ClientSettings, addr: Seq<char>) -> ClientView {
    ClientView {
        uri: if settings.tls_enabled {
            "https://"@ + addr
        } else {
            "http://"@ + addr
        },
        tls: None,
        connect_timeout: settings.timeout,
        grpc_timeout: timeout_text(settings.timeout),
    }
}

/// Whether a client can be built: its timeout can go over the wire, and the dashes of the
/// certificates that TLS is used with can be counted.
pub open spec fn can_build(settings: ClientSettings) -> bool {
    &&& timeout_fits(settings.timeout)
    &&& match (settings.tls_enabled, settings.domain, settings.tls_ca_pem) {
        (true, Some(_), Some(ca_pem)) => has_countable_dashes(ca_pem),
        _ => true,
    }
}

/// A text put behind another.
fn concatenation(first: &str, second: &String) -> (text: String)
    ensures
        text@ == first@ + second@,
{
    let mut text = first.to_owned();
    text.append(second.as_str());
    text
}

impl RtcSignallingClientBuilder {
    /// Set the request timeout/deadline.
    ///
    /// Default: 10 seconds.
    pub fn set_timeout(self, timeout: Duration) -> (builder: Self)
        ensures
            builder@ == (ClientSettings { timeout, ..self@ }),
    {
        let mut builder = self;
        builder.timeout = timeout;
        builder
    }

    /// Enables TLS with provided domain and CA PEM strings.
    ///
    /// Default: TLS disabled.
    pub fn set_tls(self, domain: String, tls_ca_pem: String) -> (builder: Self)
        ensures
            builder@ == (ClientSettings {
                timeout: self@.timeout,
                tls_enabled: true,
                domain: Some(domain@),
                tls_ca_pem: Some(tls_ca_pem@),
            }),
    {
        let mut builder = self;
        builder.tls_enabled = true;
        builder.domain = Some(domain);
        builder.tls_ca_pem = Some(tls_ca_pem);
        builder
    }

    /// Whether the timeout can go over the wire.
    pub fn timeout_fits(&self) -> (fits: bool)
        ensures
            fits == timeout_fits(self@.timeout),
    {
        self.timeout.as_nanos() / 3_600_000_000_000 <= MAX_TIMEOUT_VALUE as u128
    }

    /// Create a signalling client for the server at an address. TLS is used where it was enabled.
    /// Refused where the address does not make a URI, and where the domain or the certificates
    /// are refused.
    pub fn build(&self, addr: String) -> (client: ClientResult<RtcSignallingClient>)
        requires
            can_build(self@),
        ensures
            is_client_for(self@, addr@, client),
    {
        let grpc_timeout = tonic_timeout(self.timeout);
        match (self.tls_enabled, &self.domain, &self.tls_ca_pem) {
            (true, Some(domain), Some(tls_ca_pem)) => {
                let uri = concatenation("https://", &addr);
                if !tonic_accepts_uri(&uri) {
                    return Err(ClientError::InvalidUrl);
                }
                match tonic_tls_config(&uri, domain, tls_ca_pem) {
                    Ok(()) => {},
                    Err(error) => return Err(ClientError::from(error)),
                }
                let tls = TlsSettings { domain: domain.clone(), ca_pem: tls_ca_pem.clone() };
                Ok(
                    RtcSignallingClient {
                        uri,
                        tls: Some(tls),
                        connect_timeout: self.timeout,
                        grpc_timeout,
                    },
                )
            },
            _ => {
                let uri = concatenation("http://", &addr);
                if !tonic_accepts_uri(&uri) {
                    return Err(ClientError::InvalidUrl);
                }
                Ok(
                    RtcSignallingClient {
                        uri,
                        tls: None,
                        connect_timeout: self.timeout,
                        grpc_timeout,
                    },
                )
            },
        }
    }

    /// Whether [`Self::build`] can create a signalling client.
    pub fn can_build(&self) -> (can: bool)
        ensures
            can == can_build(self@),
    {
        let countable = match (self.tls_enabled, &self.domain, &self.tls_ca_pem) {
            (true, Some(_), Some(tls_ca_pem)) => dashes_are_countable(tls_ca_pem),
            _ => true,
        };
        countable && self.timeout_fits()
    }

    /// Create a signalling client as [`Self::build`] does, or none where the timeout cannot go over
    /// the wire, and where the dashes of the certificates cannot be counted.
    pub fn try_build(&self, addr: String) -> (client: Option<ClientResult<RtcSignallingClient>>)
        ensures
            client is Some <==> can_build(self@),
            client matches Some(client) ==> is_client_for(self@, addr@, client),
    {
        if self.can_build() {
            Some(self.build(addr))
        } else {
            None
        }
    }

    /// Create a signalling client as [`Self::build_web`] does, or none where the timeout cannot go
    /// over the wire.
    pub fn try_build_web(&self, addr: String) -> (client: Option<RtcSignallingClient>)
        ensures
            client is Some <==> timeout_fits(self@.timeout),
            client matches Some(client) ==> client@ == web_client_for(self@, addr@),
    {
        if self.timeout_fits() {
            Some(self.build_web(addr))
        } else {
            None
        }
    }

    /// Create a signalling client that runs in a browser. The browser looks after TLS: only whether
    /// it was enabled counts.
    pub fn build_web(&self, addr: String) -> (client: RtcSignallingClient)
        requires
            timeout_fits(self@.timeout),
        ensures
            client@ == web_client_for(self@, addr@),
    {
        let grpc_timeout = tonic_timeout(self.timeout);
        let uri = if self.tls_enabled {
            concatenation("https://", &addr)
        } else {
            concatenation("http://", &addr)
        };
        RtcSignallingClient { uri, tls: None, connect_timeout: self.timeout, grpc_timeout }
    }
}

/// What a signalling client was built from.
#[verifier::ext_equal]
pub struct ClientView {
    /// Where the server is.
    pub uri: Seq<char>,
    /// The domain and the certificates with which TLS is used.
    pub tls: Option<(Seq<char>, Seq<char>)>,
    /// How long connecting may take.
    pub connect_timeout: Duration,
    /// How long a request may take, as it goes over the wire.
    pub grpc_timeout: Seq<char>,
}

/// Signalling client.
#[derive(Debug)]
pub struct RtcSignallingClient {
    uri: String,
    tls: Option<TlsSettings>,
    connect_timeout: Duration,
    grpc_timeout: String,
}

impl View for RtcSignallingClient {
    type V = ClientView;

    closed spec fn view(&self) -> ClientView {
        ClientView {
            uri: self.uri@,
            tls: match self.tls {
                Some(tls) => Some((tls.domain@, tls.ca_pem@)),
                None => None,
            },
            connect_timeout: self.connect_timeout,
            grpc_timeout: self.grpc_timeout@,
        }
    }
}

/// A message to the server, and how long it may take to answer.
#[derive(Debug)]
pub struct Request<M> {
    /// The timeout as it goes over the wire.
    pub grpc_timeout: String,
    pub message: M,
}

impl RtcSignallingClient {
    /// A client with the same settings.
    pub fn duplicate(&self) -> (client: Self)
        ensures
            client@ == self@,
    {
        let tls = match &self.tls {
            Some(tls) => Some(
                TlsSettings { domain: tls.domain.clone(), ca_pem: tls.ca_pem.clone() },
            ),
            None => None,
        };
        RtcSignallingClient {
            uri: self.uri.clone(),
            tls,
            connect_timeout: self.connect_timeout,
            grpc_timeout: self.grpc_timeout.clone(),
        }
    }

    /// Where the server is.
    pub fn uri(&self) -> (uri: &String)
        ensures
            uri@ == self@.uri,
    {
        &self.uri
    }

    /// The domain and the certificates with which TLS is used.
    pub fn tls(&self) -> (tls: &Option<TlsSettings>)
        ensures
            self@.tls == match *tls {
                Some(tls) => Some((tls.domain@, tls.ca_pem@)),
                None => None,
            },
    {
        &self.tls
    }

    /// How long connecting may take.
    pub fn connect_timeout(&self) -> (timeout: Duration)
        ensures
            timeout == self@.connect_timeout,
    {
        self.connect_timeout
    }

    /// Request builder.
    pub fn build_request<M>(&self, message: M) -> (request: Request<M>)
        ensures
            request.message == message,
            request.grpc_timeout@ == self@.grpc_timeout,
    {
        Request { grpc_timeout: self.grpc_timeout.clone(), message }
    }

    /// The request for an identity.
    pub fn advertise(&self) -> (request: Request<AdvertiseReq>)
        ensures
            request.grpc_timeout@ == self@.grpc_timeout,
    {
        self.build_request(AdvertiseReq {  })
    }

    /// The identity that a server assigned.
    pub fn advertised(response: AdvertiseRsp) -> (id: u64)
        requires
            response.local_peer is Some,
        ensures
            id == response.local_peer->0.id,
    {
        response.local_peer.unwrap().id
    }

    /// The request for the peers that are known to the server.
    pub fn _peer_discover(&self, id: u64) -> (request: Request<PeerDiscoverReq>)
        ensures
            request.message == (PeerDiscoverReq { local_peer: Some(PeerId { id }) }),
            request.grpc_timeout@ == self@.grpc_timeout,
    {
        self.build_request(PeerDiscoverReq { local_peer: Some(PeerId { id }) })
    }

    /// The peers that a server named.
    pub fn _peers_discovered(response: PeerDiscoverRsp) -> (ids: Vec<u64>)
        ensures
            ids@ == crate::signalling::server::peer_ids(response.remote_peers@),
    {
        let peers = response.remote_peers;
        let mut ids: Vec<u64> = Vec::new();
        for i in 0..peers.len()
            invariant
                ids@ == crate::signalling::server::peer_ids(peers@.take(i as int)),
        {
            ids.push(peers[i].id);
            assert(peers@.take(i + 1) =~= peers@.take(i as int).push(peers@[i as int]));
        }
        assert(peers@.take(peers@.len() as int) =~= peers@);
        ids
    }

    /// The request to be told of changes to the set of peers.
    pub fn open_peer_listener(&self, id: u64) -> (request: Request<PeerListenerReq>)
        ensures
            request.message == (PeerListenerReq { local_peer: Some(PeerId { id }) }),
            request.grpc_timeout@ == self@.grpc_timeout,
    {
        self.build_request(PeerListenerReq { local_peer: Some(PeerId { id }) })
    }

    /// The request to be told of offers.
    pub fn open_offer_listener(&self, id: u64) -> (request: Request<OfferListenerReq>)
        ensures
            request.message == (OfferListenerReq { local_peer: Some(PeerId { id }) }),
            request.grpc_timeout@ == self@.grpc_timeout,
    {
        self.build_request(OfferListenerReq { local_peer: Some(PeerId { id }) })
    }

    /// The request to be told of answers.
    pub fn open_answer_listener(&self, id: u64) -> (request: Request<AnswerListenerReq>)
        ensures
            request.message == (AnswerListenerReq { local_peer: Some(PeerId { id }) }),
            request.grpc_timeout@ == self@.grpc_timeout,
    {
        self.build_request(AnswerListenerReq { local_peer: Some(PeerId { id }) })
    }

    /// The request to forward an answer. Refused where the answer or the candidates cannot be
    /// carried.
    pub fn signal_answer<A: SignalPayload, C: SignalPayload>(
        &self,
        id: u64,
        remote_id: u64,
        answer: A,
        candidates: C,
    ) -> (request: ClientResult<Request<SignalAnswerReq>>)
        ensures
            match (C::encoding(candidates.model()), A::encoding(answer.model())) {
                (Some(candidate_bytes), Some(answer_bytes)) => {
                    &&& request is Ok
                    &&& request->Ok_0.grpc_timeout@ == self@.grpc_timeout
                    &&& carries_answer(
                        request->Ok_0.message,
                        id,
                        remote_id,
                        answer_bytes,
                        candidate_bytes,
                    )
                },
                _ => request matches Err(ClientError::Bincode(_)),
            },
    {
        let candidates = match candidates.encode() {
            Ok(candidates) => candidates,
            Err(error) => return Err(ClientError::from(error)),
        };
        let answer = match answer.encode() {
            Ok(answer) => answer,
            Err(error) => return Err(ClientError::from(error)),
        };
        let answer_signal = SignalAnswer { answerer_id: id, candidates, answer };
        Ok(
            self.build_request(
                SignalAnswerReq {
                    offerer_peer: Some(PeerId { id: remote_id }),
                    answer_signal: Some(answer_signal),
                },
            ),
        )
    }

    /// The request to forward an offer. Refused where the offer or the candidates cannot be
    /// carried.
    pub fn signal_offer<O: SignalPayload, C: SignalPayload>(
        &self,
        id: u64,
        remote_id: u64,
        offer: O,
        candidates: C,
    ) -> (request: ClientResult<Request<SignalOfferReq>>)
        ensures
            match (C::encoding(candidates.model()), O::encoding(offer.model())) {
                (Some(candidate_bytes), Some(offer_bytes)) => {
                    &&& request is Ok
                    &&& request->Ok_0.grpc_timeout@ == self@.grpc_timeout
                    &&& carries_offer(
                        request->Ok_0.message,
                        id,
                        remote_id,
                        offer_bytes,
                        candidate_bytes,
                    )
                },
                _ => request matches Err(ClientError::Bincode(_)),
            },
    {
        let candidates = match candidates.encode() {
            Ok(candidates) => candidates,
            Err(error) => return Err(ClientError::from(error)),
        };
        let offer = match offer.encode() {
            Ok(offer) => offer,
            Err(error) => return Err(ClientError::from(error)),
        };
        let offer_signal = SignalOffer { offerer_id: id, candidates, offer };
        Ok(
            self.build_request(
                SignalOfferReq {
                    answerer_peer: Some(PeerId { id: remote_id }),
                    offer_signal: Some(offer_signal),
                },
            ),
        )
    }
}

/// Whether a request forwards those bytes as the answer of one peer to another.
pub open spec fn carries_answer(
    request: SignalAnswerReq,
    id: u64,
    remote_id: u64,
    answer: Seq<u8>,
    candidates: Seq<u8>,
) -> bool {
    &&& request.offerer_peer == Some(PeerId { id: remote_id })
    &&& request.answer_signal is Some
    &&& request.answer_signal->0.answerer_id == id
    &&& request.answer_signal->0.answer@ == answer
    &&& request.answer_signal->0.candidates@ == candidates
}

/// Whether a request forwards those bytes as the offer of one peer to another.
pub open spec fn carries_offer(
    request: SignalOfferReq,
    id: u64,
    remote_id: u64,
    offer: Seq<u8>,
    candidates: Seq<u8>,
) -> bool {
    &&& request.answerer_peer == Some(PeerId { id: remote_id })
    &&& request.offer_signal is Some
    &&& request.offer_signal->0.offerer_id == id
    &&& request.offer_signal->0.offer@ == offer
    &&& request.offer_signal->0.candidates@ == candidates
}

} // verus!
