//! Peer connections whose settings are checked when they are built.

use just_webrtc::connection::BuildStep;
use just_webrtc::generic::default_configuration;
use just_webrtc::generic::platform::native::Native;
use just_webrtc::generic::platform::web;
use just_webrtc::generic::platform::web::Web;
use just_webrtc::generic::DataChannelConfig;
use just_webrtc::generic::PeerConnectionBuilder;
use just_webrtc::generic::PeerConnectionBuilderError;
use just_webrtc::types::ICECandidate;
use just_webrtc::types::SDPType;
use just_webrtc::types::SessionDescription;

fn offer() -> SessionDescription {
    SessionDescription { sdp_type: SDPType::Offer, sdp: "sdp".to_string() }
}

fn channels() -> Vec<(String, DataChannelConfig)> {
    vec![("test_channel_".to_string(), DataChannelConfig::default())]
}

#[test]
fn the_default_configuration_leaves_policies_open() {
    let config = default_configuration();
    assert_eq!(config.ice_servers.len(), 1);
    assert_eq!(
        config.ice_servers[0].urls,
        vec!["stun:stun.l.google.com:19302", "stun:stun1.l.google.com:19302"]
    );
    assert!(config.ice_servers[0].credential_type.is_none());
    assert!(config.bundle_policy.is_none());
    assert!(config.ice_transport_policy.is_none());
    assert!(config.rtcp_mux_policy.is_none());
    assert_eq!(PeerConnectionBuilder::<Native>::new().outgoing_buffer(), 16);
}

#[test]
fn an_offerer_is_built_from_channels() {
    let mut builder = PeerConnectionBuilder::<Native>::new();
    let plan = builder.with_channel_options(channels()).build().unwrap();
    assert!(plan.is_offerer);
    assert_eq!(plan.config.ice_servers.len(), 1);
    assert!(matches!(
        plan.steps.as_slice(),
        [BuildStep::CreateDataChannel(0, label, _), BuildStep::CreateOffer, BuildStep::SetLocalDescription]
            if label == "test_channel_0"
    ));
}

#[test]
fn an_answerer_is_built_from_an_offer() {
    let mut builder = PeerConnectionBuilder::<Web>::new();
    let plan = builder.with_remote_offer(Some(offer())).build().unwrap();
    assert!(!plan.is_offerer);
    assert!(matches!(
        plan.steps.as_slice(),
        [BuildStep::SetRemoteDescription(remote), BuildStep::CreateAnswer, BuildStep::SetLocalDescription]
            if remote.sdp == "sdp"
    ));
}

#[test]
fn conflicting_settings_are_refused_when_building() {
    let mut builder = PeerConnectionBuilder::<Native>::default();
    builder.with_channel_options(channels());
    builder.with_remote_offer(Some(offer()));
    assert!(matches!(
        builder.build(),
        Err(PeerConnectionBuilderError::ConflictingBuildOptions)
    ));
    builder.with_remote_offer(None);
    assert!(builder.build().is_ok());
    let mut builder = PeerConnectionBuilder::<Web>::default();
    builder.with_channel_options(channels());
    assert_eq!(
        builder.with_remote_offer(Some(offer())).build().unwrap_err(),
        "remote offer is mutually exclusive with channel settings"
    );
}

#[test]
fn settings_can_be_replaced() {
    let mut builder = PeerConnectionBuilder::<Native>::new();
    builder.set_outgoing_buffer(3);
    let mut config = default_configuration();
    config.peer_identity = "me".to_string();
    builder.set_config(config);
    assert_eq!(builder.outgoing_buffer(), 3);
    assert_eq!(builder.build().unwrap().config.peer_identity, "me");
}

#[test]
fn platform_errors_are_wrapped() {
    let error = PeerConnectionBuilderError::from(webrtc::Error::ErrUnknownType);
    assert!(matches!(
        error,
        PeerConnectionBuilderError::WebRTCError(webrtc::Error::ErrUnknownType)
    ));
}

#[test]
fn the_end_of_the_gathering_is_not_sent_on() {
    assert_eq!(web::handle_ice_candidate::<String>(None), None);
    assert_eq!(web::handle_ice_candidate(Some(Err("unreadable".to_string()))), None);
    let candidate = ICECandidate { candidate: "c".to_string(), ..Default::default() };
    assert_eq!(
        web::handle_ice_candidate::<String>(Some(Ok(candidate.clone()))),
        Some(candidate)
    );
}

#[test]
fn builder_errors_say_what_happened() {
    let conflict: PeerConnectionBuilderError<u8> =
        PeerConnectionBuilderError::ConflictingBuildOptions;
    assert_eq!(
        conflict.message(|code| code.to_string()),
        "remote offer is mutually exclusive with channel settings!"
    );
    let error = PeerConnectionBuilderError::WebRTCError(7u8);
    assert_eq!(error.message(|code| format!("code {code}")), "webrtc error (code 7)");
}
