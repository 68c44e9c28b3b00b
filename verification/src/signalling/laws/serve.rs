//! What holds of how servers are set up.

use core::time::Duration;

use vstd::prelude::*;
use vstd::utf8::encode_utf8;

use crate::signalling::pem::dashes;
use crate::signalling::pem::dashes_are_countable;
use crate::signalling::serve::pem_is_countable;
use crate::signalling::serve::serve;
use crate::signalling::serve::serve_web;
use crate::signalling::serve::settings_for;
use crate::signalling::serve::CorsSettings;
use crate::signalling::serve::ServerSettings;

verus! {

/// A byte is a dash or is none, and the dashes of two texts add up.
pub proof fn dashes_add_up(first: Seq<u8>, byte: u8, second: Seq<u8>)
    ensures
        dashes(Seq::empty()) == 0,
        dashes(seq![byte]) == (if byte == '-' as u8 {
            1nat
        } else {
            0nat
        }),
        dashes(first + second) == dashes(first) + dashes(second),
        dashes(first) <= first.len(),
    decreases first.len() + second.len(),
{
    assert(seq![byte].drop_last() =~= Seq::empty());
    reveal_with_fuel(dashes, 2);
    assert('-' as u8 == 0x2d);
    if second.len() == 0 {
        assert(first + second =~= first);
        if first.len() > 0 {
            dashes_add_up(first.drop_last(), byte, second);
        }
    } else {
        assert((first + second).drop_last() =~= first + second.drop_last());
        dashes_add_up(first, byte, second.drop_last());
    }
}

/// Dashes can be counted up to the largest number of thirty-two bits, with a sign.
pub proof fn few_dashes_are_countable(pem: &String, countable: bool)
    requires
        call_ensures(dashes_are_countable, (pem,), countable),
    ensures
        countable <==> dashes(encode_utf8(pem@)) <= 0x7fff_ffff,
        encode_utf8(pem@).len() <= 0x7fff_ffff ==> countable,
{
    dashes_add_up(encode_utf8(pem@), 0, Seq::empty());
}

/// A certificate and a key are countable where both are, and where there are none.
pub proof fn both_are_countable_where_each_is(
    tls_pem: &Option<(String, String)>,
    countable: bool,
)
    requires
        call_ensures(pem_is_countable, (tls_pem,), countable),
    ensures
        *tls_pem is None ==> countable,
        *tls_pem matches Some((cert, key)) ==> (countable <==> dashes(encode_utf8(cert@))
            <= 0x7fff_ffff && dashes(encode_utf8(key@)) <= 0x7fff_ffff),
{
}

/// Servers can be set up without a certificate, and with one whose dashes, and those of its key, can
/// be counted.
pub proof fn usual_servers_can_be_set_up(
    interval: Option<Duration>,
    timeout: Option<Duration>,
    tls_pem: Option<(String, String)>,
)
    requires
        tls_pem matches Some((cert, key)) ==> dashes(encode_utf8(cert@)) <= 0x7fff_ffff && dashes(
            encode_utf8(key@),
        ) <= 0x7fff_ffff,
    ensures
        call_requires(serve, (interval, timeout, tls_pem)),
        call_requires(serve_web, (interval, timeout, tls_pem)),
{
}

/// A server is refused where its certificate or its key was, with the error that said so. Otherwise
/// it has what it was told. A server for browsers tells them that scripts from everywhere may use
/// gRPC, and takes HTTP/1 where it has no certificate. A server for native clients does neither.
pub proof fn settings_follow_what_was_told(
    web: bool,
    interval: Option<Duration>,
    timeout: Option<Duration>,
    tls_pem: Option<(String, String)>,
    accepted: Result<(), tonic::transport::Error>,
    outcome: Result<ServerSettings, tonic::transport::Error>,
)
    requires
        call_ensures(settings_for, (web, interval, timeout, tls_pem, accepted), outcome),
    ensures
        outcome is Err <==> tls_pem is Some && accepted is Err,
        outcome matches Err(error) ==> accepted == Err::<(), tonic::transport::Error>(error),
        outcome matches Ok(settings) ==> {
            &&& settings.http2_keepalive_interval == interval
            &&& settings.http2_keepalive_timeout == timeout
            &&& settings.identity is Some <==> tls_pem is Some
            &&& tls_pem matches Some((cert, key)) ==> settings.identity->0.cert_pem == cert
                && settings.identity->0.key_pem == key
            &&& settings.accept_http1 <==> web && tls_pem is None
            &&& settings.cors is Some <==> web
            &&& settings.cors matches Some(cors) ==> {
                &&& cors.mirror_origin
                &&& cors.allow_credentials
                &&& cors.max_age == 24 * 60 * 60
                &&& cors.expose_headers@.len() == 3
                &&& cors.expose_headers@[0]@ == "grpc-status"@
                &&& cors.expose_headers@[1]@ == "grpc-message"@
                &&& cors.expose_headers@[2]@ == "grpc-status-details-bin"@
                &&& cors.allow_headers@.len() == 4
                &&& cors.allow_headers@[0]@ == "x-grpc-web"@
                &&& cors.allow_headers@[1]@ == "content-type"@
                &&& cors.allow_headers@[2]@ == "x-user-agent"@
                &&& cors.allow_headers@[3]@ == "grpc-timeout"@
            }
        },
{
    if outcome is Ok && web {
        strings_of_cors(outcome->Ok_0.cors->0);
    }
}

/// The headers that browsers are told of, one by one.
proof fn strings_of_cors(cors: CorsSettings)
    requires
        crate::signalling::serve::is_grpc_web_cors(cors),
    ensures
        cors.expose_headers@.len() == 3,
        cors.expose_headers@[0]@ == "grpc-status"@,
        cors.expose_headers@[1]@ == "grpc-message"@,
        cors.expose_headers@[2]@ == "grpc-status-details-bin"@,
        cors.allow_headers@.len() == 4,
        cors.allow_headers@[0]@ == "x-grpc-web"@,
        cors.allow_headers@[1]@ == "content-type"@,
        cors.allow_headers@[2]@ == "x-user-agent"@,
        cors.allow_headers@[3]@ == "grpc-timeout"@,
{
}

/// A server for native clients has what it was told, takes HTTP/2 alone, and tells browsers nothing.
/// Without a certificate it is never refused.
pub proof fn native_servers_are_set_up_as_told(
    interval: Option<Duration>,
    timeout: Option<Duration>,
    tls_pem: Option<(String, String)>,
    outcome: Result<ServerSettings, tonic::transport::Error>,
)
    requires
        call_ensures(serve, (interval, timeout, tls_pem), outcome),
    ensures
        tls_pem is None ==> outcome is Ok,
        outcome matches Ok(settings) ==> {
            &&& settings.http2_keepalive_interval == interval
            &&& settings.http2_keepalive_timeout == timeout
            &&& settings.identity is Some <==> tls_pem is Some
            &&& tls_pem matches Some((cert, key)) ==> settings.identity->0.cert_pem == cert
                && settings.identity->0.key_pem == key
            &&& !settings.accept_http1
            &&& settings.cors is None
        },
{
}

/// A server for browsers has what it was told, takes HTTP/1 where it has no certificate, and tells
/// browsers that scripts from everywhere may use gRPC. Without a certificate it is never refused.
pub proof fn web_servers_are_set_up_as_told(
    interval: Option<Duration>,
    timeout: Option<Duration>,
    tls_pem: Option<(String, String)>,
    outcome: Result<ServerSettings, tonic::transport::Error>,
)
    requires
        call_ensures(serve_web, (interval, timeout, tls_pem), outcome),
    ensures
        tls_pem is None ==> outcome is Ok,
        outcome matches Ok(settings) ==> {
            &&& settings.http2_keepalive_interval == interval
            &&& settings.http2_keepalive_timeout == timeout
            &&& settings.identity is Some <==> tls_pem is Some
            &&& tls_pem matches Some((cert, key)) ==> settings.identity->0.cert_pem == cert
                && settings.identity->0.key_pem == key
            &&& settings.accept_http1 <==> tls_pem is None
            &&& settings.cors is Some
            &&& settings.cors matches Some(cors) ==> {
                &&& cors.mirror_origin
                &&& cors.allow_credentials
                &&& cors.max_age == 24 * 60 * 60
                &&& cors.expose_headers@.len() == 3
                &&& cors.expose_headers@[0]@ == "grpc-status"@
                &&& cors.expose_headers@[1]@ == "grpc-message"@
                &&& cors.expose_headers@[2]@ == "grpc-status-details-bin"@
                &&& cors.allow_headers@.len() == 4
                &&& cors.allow_headers@[0]@ == "x-grpc-web"@
                &&& cors.allow_headers@[1]@ == "content-type"@
                &&& cors.allow_headers@[2]@ == "x-user-agent"@
                &&& cors.allow_headers@[3]@ == "grpc-timeout"@
            }
        },
{
    if outcome is Ok {
        strings_of_cors(outcome->Ok_0.cors->0);
    }
}

} // verus!
