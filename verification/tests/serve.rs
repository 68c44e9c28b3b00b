//! How signalling servers are set up.

use std::time::Duration;

use just_webrtc::signalling::client::RtcSignallingClientBuilder;
use just_webrtc::signalling::pem::dashes_are_countable;
use just_webrtc::signalling::serve::pem_is_countable;
use just_webrtc::signalling::serve::serve;
use just_webrtc::signalling::serve::serve_web;
use just_webrtc::signalling::serve::settings_for;
use just_webrtc::signalling::serve::DEFAULT_NATIVE_SERVER_ADDR;
use just_webrtc::signalling::serve::DEFAULT_WEB_SERVER_ADDR;

#[test]
fn servers_without_tls() {
    let interval = Some(Duration::from_secs(5));
    let settings = serve(interval, None, None).unwrap();
    assert!(!settings.accept_http1);
    assert!(settings.cors.is_none());
    assert_eq!(settings.http2_keepalive_interval, interval);
    assert_eq!(settings.http2_keepalive_timeout, None);
    assert!(settings.identity.is_none());
    let settings = serve_web(None, interval, None).unwrap();
    assert!(settings.accept_http1);
    assert_eq!(settings.http2_keepalive_interval, None);
    assert_eq!(settings.http2_keepalive_timeout, interval);
    let cors = settings.cors.unwrap();
    assert!(cors.mirror_origin);
    assert!(cors.allow_credentials);
    assert_eq!(cors.max_age, 24 * 60 * 60);
    assert_eq!(
        cors.expose_headers,
        vec!["grpc-status", "grpc-message", "grpc-status-details-bin"]
    );
    assert_eq!(
        cors.allow_headers,
        vec!["x-grpc-web", "content-type", "x-user-agent", "grpc-timeout"]
    );
}

#[test]
fn servers_with_an_identity_that_cannot_be_read() {
    let pem = || Some(("no certificate".to_string(), "no key".to_string()));
    assert!(serve(None, None, pem()).is_err());
    assert!(serve_web(None, None, pem()).is_err());
}

#[test]
fn settings_go_by_whether_the_identity_was_accepted() {
    let timeout = Some(Duration::from_secs(7));
    let pem = || Some(("certificate".to_string(), "key".to_string()));
    let refused = || serve(None, None, Some(("no certificate".to_string(), String::new()))).unwrap_err();
    for web in [false, true] {
        let error = refused();
        let text = format!("{error:?}");
        let passed_on = settings_for(web, None, timeout, pem(), Err(error)).unwrap_err();
        assert_eq!(format!("{passed_on:?}"), text);
        let settings = settings_for(web, None, timeout, pem(), Ok(())).unwrap();
        assert!(!settings.accept_http1);
        assert_eq!(settings.cors.is_some(), web);
        assert_eq!(settings.http2_keepalive_interval, None);
        assert_eq!(settings.http2_keepalive_timeout, timeout);
        let identity = settings.identity.unwrap();
        assert_eq!(identity.cert_pem, "certificate");
        assert_eq!(identity.key_pem, "key");
        // without an identity there is nothing to refuse
        let settings = settings_for(web, timeout, None, None, Err(refused())).unwrap();
        assert_eq!(settings.accept_http1, web);
        assert_eq!(settings.http2_keepalive_interval, timeout);
        assert!(settings.identity.is_none());
    }
}

#[test]
fn dashes_of_usual_certificates_are_countable() {
    let (cert, key) = identity("localhost");
    assert!(dashes_are_countable(&cert));
    assert!(dashes_are_countable(&String::new()));
    assert!(pem_is_countable(&Some((cert.clone(), key))));
    assert!(pem_is_countable(&None));
    let builder = RtcSignallingClientBuilder::default().set_tls("localhost".to_string(), cert);
    assert!(builder.can_build());
    assert!(builder.try_build("localhost:10000".to_string()).unwrap().is_ok());
}

#[test]
fn default_addresses() {
    assert_eq!(DEFAULT_NATIVE_SERVER_ADDR, "[::1]:10000");
    assert_eq!(DEFAULT_WEB_SERVER_ADDR, "[::1]:10001");
}

/// Bytes in PEM.
fn pem(label: &str, der: &[u8]) -> String {
    const ALPHABET: &[u8; 64] = b"ABCDEFGHIJKLMNOPQRSTUVWXYZabcdefghijklmnopqrstuvwxyz0123456789+/";
    let mut text = format!("-----BEGIN {label}-----\n");
    for line in der.chunks(48) {
        for group in line.chunks(3) {
            let byte = |i: usize| *group.get(i).unwrap_or(&0) as usize;
            let bits = byte(0) << 16 | byte(1) << 8 | byte(2);
            for i in 0..4 {
                if i <= group.len() {
                    text.push(ALPHABET[bits >> (18 - 6 * i) & 63] as char);
                } else {
                    text.push('=');
                }
            }
        }
        text.push('\n');
    }
    text + &format!("-----END {label}-----\n")
}

/// A certificate for a domain, and its private key, in PEM.
fn identity(domain: &str) -> (String, String) {
    let made =
        webrtc::dtls::crypto::Certificate::generate_self_signed(vec![domain.to_string()]).unwrap();
    let cert = pem("CERTIFICATE", &made.certificate[0].0);
    let key = pem("PRIVATE KEY", &made.private_key.serialized_der);
    (cert, key)
}

#[test]
fn servers_with_tls() {
    let (cert, key) = identity("localhost");
    let settings = serve(None, None, Some((cert.clone(), key.clone()))).unwrap();
    let kept = settings.identity.unwrap();
    assert_eq!(kept.cert_pem, cert);
    assert_eq!(kept.key_pem, key);
    let settings = serve_web(None, None, Some((cert, key))).unwrap();
    assert!(!settings.accept_http1);
    assert!(settings.cors.is_some());
    assert!(settings.identity.is_some());
}

#[test]
fn clients_trust_a_certificate() {
    let (cert, _key) = identity("localhost");
    let client = RtcSignallingClientBuilder::default()
        .set_tls("localhost".to_string(), cert.clone())
        .build("localhost:10000".to_string())
        .unwrap();
    assert_eq!(client.tls().as_ref().unwrap().ca_pem, cert);
}
