//! How signalling servers are set up, for native clients and for clients that run in a browser.

use core::time::Duration;

use vstd::prelude::*;

use crate::signalling::pem::dashes_are_countable;
use crate::signalling::pem::has_countable_dashes;

verus! {

/// Default native server address.
pub const DEFAULT_NATIVE_SERVER_ADDR: &'static str = "[::1]:10000";

/// Default web server address.
pub const DEFAULT_WEB_SERVER_ADDR: &'static str = "[::1]:10001";

/// For how many seconds a browser may remember what a server allows: a day.
pub const DEFAULT_MAX_AGE: u64 = 86_400;

/// What a server allows scripts from elsewhere to do.
#[derive(Debug)]
pub struct CorsSettings {
    /// Whether every origin is allowed, by naming it back.
    pub mirror_origin: bool,
    pub allow_credentials: bool,
    /// In seconds.
    pub max_age: u64,
    /// The headers of a response that scripts may read.
    pub expose_headers: Vec<String>,
    /// The headers that scripts may send.
    pub allow_headers: Vec<String>,
}

/// The certificate and the private key of a server, in PEM.
#[derive(Debug)]
pub struct ServerIdentity {
    pub cert_pem: String,
    pub key_pem: String,
}

/// How a signalling server is set up.
#[derive(Debug)]
pub struct ServerSettings {
    /// Whether HTTP/1 is accepted besides HTTP/2.
    pub accept_http1: bool,
    /// What scripts may do, where the server serves browsers.
    pub cors: Option<CorsSettings>,
    pub http2_keepalive_interval: Option<Duration>,
    pub http2_keepalive_timeout: Option<Duration>,
    /// What TLS is used with, where it is.
    pub identity: Option<ServerIdentity>,
}

/// Whether a list of strings is that list of texts.
pub open spec fn are_texts(strings: Seq<String>, texts: Seq<Seq<char>>) -> bool {
    &&& strings.len() == texts.len()
    &&& forall|i: int| 0 <= i < strings.len() ==> (#[trigger] strings[i])@ == texts[i]
}

/// Whether these are the settings that gRPC in a browser takes.
pub open spec fn is_grpc_web_cors(cors: CorsSettings) -> bool {
    &&& cors.mirror_origin
    &&& cors.allow_credentials
    &&& cors.max_age == DEFAULT_MAX_AGE
    &&& are_texts(
        cors.expose_headers@,
        seq!["grpc-status"@, "grpc-message"@, "grpc-status-details-bin"@],
    )
    &&& are_texts(
        cors.allow_headers@,
        seq!["x-grpc-web"@, "content-type"@, "x-user-agent"@, "grpc-timeout"@],
    )
}

/// Whether the dashes of a certificate and of a private key can be counted.
pub open spec fn has_countable_pem(tls_pem: Option<(String, String)>) -> bool {
    tls_pem matches Some((cert_pem, key_pem)) ==> has_countable_dashes(cert_pem@)
        && has_countable_dashes(key_pem@)
}

/// Whether the dashes of a certificate and of a private key can be counted.
pub fn pem_is_countable(tls_pem: &Option<(String, String)>) -> (countable: bool)
    ensures
        countable == has_countable_pem(*tls_pem),
{
    match tls_pem {
        Some((cert_pem, key_pem)) => dashes_are_countable(cert_pem) && dashes_are_countable(key_pem),
        None => true,
    }
}

/// Calls `tonic::transport::Server::tls_config` with an identity, which parses the certificate and
/// loads the key. Loading a key may draw on the random source of the system, and fails where that
/// does: so nothing is said of the outcome. The dashes of either are counted in an `i32`.
#[verifier::external_body]
fn tonic_server_tls_config(cert_pem: &String, key_pem: &String) -> (outcome: Result<
    (),
    tonic::transport::Error,
>)
    requires
        has_countable_dashes(cert_pem@),
        has_countable_dashes(key_pem@),
{
    let identity = tonic::transport::Identity::from_pem(cert_pem, key_pem);
    let config = tonic::transport::ServerTlsConfig::new().identity(identity);
    tonic::transport::Server::builder().tls_config(config).map(|_server| ())
}

/// Whether `tonic::transport::Server::tls_config` may come back with that outcome for a certificate
/// and a private key.
pub closed spec fn may_come_of(
    cert_pem: String,
    key_pem: String,
    outcome: Result<(), tonic::transport::Error>,
) -> bool {
    call_ensures(tonic_server_tls_config, (&cert_pem, &key_pem), outcome)
}

/// Whether a certificate and a private key are accepted. Without them there is nothing to refuse.
fn tls_outcome(tls_pem: &Option<(String, String)>) -> (outcome: Result<
    (),
    tonic::transport::Error,
>)
    requires
        has_countable_pem(*tls_pem),
    ensures
        match *tls_pem {
            Some((cert_pem, key_pem)) => may_come_of(cert_pem, key_pem, outcome),
            None => outcome is Ok,
        },
{
    let tls_config = tonic_server_tls_config;
    match tls_pem {
        Some((cert_pem, key_pem)) => tls_config(cert_pem, key_pem),
        None => Ok(()),
    }
}

/// Whether these are the settings of a service. One for web clients tells browsers what scripts may
/// do, and accepts HTTP/1 where TLS is not used; one for native clients does neither.
pub open spec fn are_settings_for(
    settings: ServerSettings,
    web: bool,
    http2_keepalive_interval: Option<Duration>,
    http2_keepalive_timeout: Option<Duration>,
    tls_pem: Option<(String, String)>,
) -> bool {
    &&& settings.accept_http1 == (web && tls_pem is None)
    &&& settings.cors is Some == web
    &&& web ==> is_grpc_web_cors(settings.cors->0)
    &&& settings.http2_keepalive_interval == http2_keepalive_interval
    &&& settings.http2_keepalive_timeout == http2_keepalive_timeout
    &&& settings.identity == match tls_pem {
        Some((cert_pem, key_pem)) => Some(ServerIdentity { cert_pem, key_pem }),
        None => None,
    }
}

/// How a service for web clients or for native clients is set up, once it is known whether the
/// certificate and the key were accepted. Where they were not, the error is passed on.
pub fn settings_for(
    web: bool,
    http2_keepalive_interval: Option<Duration>,
    http2_keepalive_timeout: Option<Duration>,
    tls_pem: Option<(String, String)>,
    accepted: Result<(), tonic::transport::Error>,
) -> (settings: Result<ServerSettings, tonic::transport::Error>)
    ensures
        match (tls_pem, accepted) {
            (Some(_), Err(error)) => settings == Err::<ServerSettings, tonic::transport::Error>(
                error,
            ),
            _ => {
                &&& settings is Ok
                &&& are_settings_for(
                    settings->Ok_0,
                    web,
                    http2_keepalive_interval,
                    http2_keepalive_timeout,
                    tls_pem,
                )
            },
        },
{
    let accept_http1 = web && tls_pem.is_none();
    let identity = match (tls_pem, accepted) {
        (Some(_), Err(error)) => return Err(error),
        (Some((cert_pem, key_pem)), Ok(())) => Some(ServerIdentity { cert_pem, key_pem }),
        (None, _) => None,
    };
    let cors = if web {
        Some(grpc_web_cors())
    } else {
        None
    };
    Ok(
        ServerSettings {
            accept_http1,
            cors,
            http2_keepalive_interval,
            http2_keepalive_timeout,
            identity,
        },
    )
}

/// What scripts may do that use gRPC in a browser.
fn grpc_web_cors() -> (cors: CorsSettings)
    ensures
        is_grpc_web_cors(cors),
{
    CorsSettings {
        mirror_origin: true,
        allow_credentials: true,
        max_age: DEFAULT_MAX_AGE,
        expose_headers: vec![
            "grpc-status".to_owned(),
            "grpc-message".to_owned(),
            "grpc-status-details-bin".to_owned(),
        ],
        allow_headers: vec![
            "x-grpc-web".to_owned(),
            "content-type".to_owned(),
            "x-user-agent".to_owned(),
            "grpc-timeout".to_owned(),
        ],
    }
}

/// How the service for native clients is set up. Refused where the certificate or the key is.
pub fn serve(
    http2_keepalive_interval: Option<Duration>,
    http2_keepalive_timeout: Option<Duration>,
    tls_pem: Option<(String, String)>,
) -> (settings: Result<ServerSettings, tonic::transport::Error>)
    requires
        has_countable_pem(tls_pem),
    ensures
        tls_pem is None ==> settings is Ok,
        settings matches Ok(settings) ==> are_settings_for(
            settings,
            false,
            http2_keepalive_interval,
            http2_keepalive_timeout,
            tls_pem,
        ),
        tls_pem matches Some((cert_pem, key_pem)) ==> match settings {
            Ok(_) => may_come_of(cert_pem, key_pem, Ok(())),
            Err(error) => may_come_of(cert_pem, key_pem, Err(error)),
        },
{
    let accepted = tls_outcome(&tls_pem);
    assert(accepted matches Ok(unit) ==> unit == ());
    settings_for(false, http2_keepalive_interval, http2_keepalive_timeout, tls_pem, accepted)
}

/// How the service for web clients is set up. HTTP/1 is accepted where TLS is not used. Refused
/// where the certificate or the key is.
pub fn serve_web(
    http2_keepalive_interval: Option<Duration>,
    http2_keepalive_timeout: Option<Duration>,
    tls_pem: Option<(String, String)>,
) -> (settings: Result<ServerSettings, tonic::transport::Error>)
    requires
        has_countable_pem(tls_pem),
    ensures
        tls_pem is None ==> settings is Ok,
        settings matches Ok(settings) ==> are_settings_for(
            settings,
            true,
            http2_keepalive_interval,
            http2_keepalive_timeout,
            tls_pem,
        ),
        tls_pem matches Some((cert_pem, key_pem)) ==> match settings {
            Ok(_) => may_come_of(cert_pem, key_pem, Ok(())),
            Err(error) => may_come_of(cert_pem, key_pem, Err(error)),
        },
{
    let accepted = tls_outcome(&tls_pem);
    assert(accepted matches Ok(unit) ==> unit == ());
    settings_for(true, http2_keepalive_interval, http2_keepalive_timeout, tls_pem, accepted)
}

/// A server with a certificate and a key is set up where `tls_config` accepts just those, and is
/// refused with the error that it gives for them.
proof fn identities_are_accepted_by_tls_config(
    interval: Option<Duration>,
    timeout: Option<Duration>,
    cert_pem: String,
    key_pem: String,
    settings: Result<ServerSettings, tonic::transport::Error>,
)
    requires
        call_ensures(serve, (interval, timeout, Some((cert_pem, key_pem))), settings)
            || call_ensures(serve_web, (interval, timeout, Some((cert_pem, key_pem))), settings),
    ensures
        settings is Ok ==> call_ensures(
            tonic_server_tls_config,
            (&cert_pem, &key_pem),
            Ok::<(), tonic::transport::Error>(()),
        ),
        settings matches Err(error) ==> call_ensures(
            tonic_server_tls_config,
            (&cert_pem, &key_pem),
            Err::<(), tonic::transport::Error>(error),
        ),
{
}

} // verus!
