//! Peer connections: how they are configured and built, and what they make of events.

use just_webrtc::builder::PeerConnectionBuilder;
use just_webrtc::builder::PeerConnectionBuilderError;
use just_webrtc::builder::SimpleLocalPeerConnection;
use just_webrtc::builder::SimpleRemotePeerConnection;
use just_webrtc::connection::channel_label;
use just_webrtc::connection::is_connected;
use just_webrtc::connection::BuildStep;
use just_webrtc::connection::CandidateCollector;
use just_webrtc::connection::ChannelAction;
use just_webrtc::connection::ChannelEvent;
use just_webrtc::platform::native;
use just_webrtc::platform::native::GatheredCandidate;
use just_webrtc::platform::native::Native;
use just_webrtc::platform::native::NativeError;
use just_webrtc::platform::wasm;
use just_webrtc::platform::wasm::Wasm;
use just_webrtc::platform::wasm::Error;
use just_webrtc::platform::ReportedConnectionState;
use just_webrtc::platform::ReportedSdpType;
use just_webrtc::text::append_decimal;
use just_webrtc::types::BundlePolicy;
use just_webrtc::types::DataChannelOptions;
use just_webrtc::types::ICECandidate;
use just_webrtc::types::ICECredentialType;
use just_webrtc::types::ICEServer;
use just_webrtc::types::ICETransportPolicy;
use just_webrtc::types::PeerConfiguration;
use just_webrtc::types::PeerConnectionState;
use just_webrtc::types::RTCPMuxPolicy;
use just_webrtc::types::SDPType;
use just_webrtc::types::SessionDescription;

const SDP: &str = "v=0\r\no=- 1 2 IN IP4 127.0.0.1\r\ns=-\r\nt=0 0\r\n";

fn description(sdp_type: SDPType, sdp: &str) -> SessionDescription {
    SessionDescription { sdp_type, sdp: sdp.to_string() }
}

fn candidate(text: &str) -> ICECandidate {
    ICECandidate { candidate: text.to_string(), ..Default::default() }
}

#[test]
fn numbers_in_decimal() {
    for number in [0, 9, 10, 99, 100, 1203, usize::MAX] {
        let mut text = String::from("n");
        append_decimal(&mut text, number);
        assert_eq!(text, format!("n{number}"));
    }
}

#[test]
fn labels_are_a_prefix_and_a_place() {
    assert_eq!(channel_label(&"test_channel_".to_string(), 0), "test_channel_0");
    assert_eq!(channel_label(&"test_channel_".to_string(), 12), "test_channel_12");
    assert_ne!(channel_label(&"c".to_string(), 1), channel_label(&"c".to_string(), 10));
}

#[test]
fn the_default_configuration() {
    let builder = PeerConnectionBuilder::<Native>::new();
    assert_eq!(
        *builder.config(),
        PeerConfiguration {
            ice_servers: vec![ICEServer {
                urls: vec![
                    "stun:stun.l.google.com:19302".to_string(),
                    "stun:stun1.l.google.com:19302".to_string(),
                ],
                username: String::new(),
                credential: String::new(),
                credential_type: ICECredentialType::Password,
            }],
            ice_transport_policy: ICETransportPolicy::All,
            bundle_policy: BundlePolicy::Balanced,
            rtcp_mux_policy: RTCPMuxPolicy::Require,
            peer_identity: String::new(),
            ice_candidate_pool_size: 0,
        }
    );
    assert_eq!(builder.outgoing_buffer(), 16);
    assert!(builder.remote_offer().is_none());
    assert!(builder.channel_options().is_empty());
}

#[test]
fn settings_are_kept() {
    let config = PeerConfiguration {
        peer_identity: "me".to_string(),
        ..Default::default()
    };
    let builder = PeerConnectionBuilder::<Native>::default()
        .set_config(config.clone())
        .set_outgoing_buffer(4);
    assert_eq!(*builder.config(), config);
    assert_eq!(builder.outgoing_buffer(), 4);
}

#[test]
fn a_remote_offer_and_channels_exclude_each_other() {
    let channels = vec![("c".to_string(), DataChannelOptions::default())];
    let refused = PeerConnectionBuilder::<Native>::new()
        .with_channel_options(channels.clone())
        .unwrap()
        .with_remote_offer(Some(description(SDPType::Offer, SDP)));
    assert_eq!(refused.unwrap_err(), PeerConnectionBuilderError::ConflictingBuildOptions);
    let refused = PeerConnectionBuilder::<Native>::new()
        .with_channel_options(channels.clone())
        .unwrap()
        .with_remote_offer(None);
    assert!(refused.is_err());
    let refused = PeerConnectionBuilder::<Native>::new()
        .with_remote_offer(Some(description(SDPType::Offer, SDP)))
        .unwrap()
        .with_channel_options(channels.clone());
    assert!(refused.is_err());
    let refused = PeerConnectionBuilder::<Native>::new()
        .with_remote_offer(Some(description(SDPType::Offer, SDP)))
        .unwrap()
        .with_channel_options(vec![]);
    assert!(refused.is_err());
    assert_eq!(
        refused.unwrap_err().message(),
        "remote offer is mutually exclusive with channel settings!"
    );
    let accepted = PeerConnectionBuilder::<Native>::new()
        .with_remote_offer(Some(description(SDPType::Offer, SDP)))
        .unwrap()
        .with_remote_offer(None)
        .unwrap()
        .with_channel_options(channels);
    assert!(accepted.is_ok());
}

#[test]
fn an_offerer_creates_its_channels() {
    let ordered = DataChannelOptions { ordered: Some(true), ..Default::default() };
    let builder = PeerConnectionBuilder::<Native>::new()
        .with_channel_options(vec![
            ("a_".to_string(), DataChannelOptions::default()),
            ("b_".to_string(), ordered.clone()),
        ])
        .unwrap();
    let plan = builder.build();
    assert!(plan.is_offerer);
    match plan.steps.as_slice() {
        [BuildStep::CreateDataChannel(0, first, first_options), BuildStep::CreateDataChannel(1, second, second_options), BuildStep::CreateOffer, BuildStep::SetLocalDescription] =>
        {
            assert_eq!(first, "a_0");
            assert_eq!(**first_options, DataChannelOptions::default());
            assert_eq!(second, "b_1");
            assert_eq!(**second_options, ordered);
        }
        other => panic!("{other:?}"),
    }
}

#[test]
fn an_answerer_accepts_the_offer() {
    let offer = description(SDPType::Offer, SDP);
    let builder = PeerConnectionBuilder::<Wasm>::new()
        .with_remote_offer(Some(offer.clone()))
        .unwrap();
    let plan = builder.build();
    assert!(!plan.is_offerer);
    match plan.steps.as_slice() {
        [BuildStep::SetRemoteDescription(remote), BuildStep::CreateAnswer, BuildStep::SetLocalDescription] => {
            assert_eq!(**remote, offer)
        }
        other => panic!("{other:?}"),
    }
}

#[test]
fn simple_peer_connections() {
    let local = SimpleLocalPeerConnection::build::<Native>(false);
    assert_eq!(
        *local.channel_options(),
        vec![(
            "simple_channel_".to_string(),
            DataChannelOptions { ordered: Some(false), ..Default::default() }
        )]
    );
    let plan = local.build();
    assert!(plan.is_offerer);
    assert!(matches!(
        &plan.steps[0],
        BuildStep::CreateDataChannel(0, label, _) if label == "simple_channel_0"
    ));
    let offer = description(SDPType::Offer, SDP);
    let remote = SimpleRemotePeerConnection::build::<Native>(offer.clone());
    assert_eq!(*remote.remote_offer(), Some(offer));
    assert!(!remote.build().is_offerer);
}

#[test]
fn descriptions_go_to_the_native_platform_and_back() {
    for sdp_type in [SDPType::Offer, SDPType::Pranswer, SDPType::Answer, SDPType::Rollback] {
        let given = description(sdp_type, SDP);
        let converted = native::rtc_description(given.clone()).unwrap();
        assert_eq!(native::session_description(converted), given);
    }
}

#[test]
fn descriptions_that_cannot_be_parsed_are_refused() {
    for sdp_type in [SDPType::Offer, SDPType::Pranswer, SDPType::Answer] {
        assert!(native::rtc_description(description(sdp_type, "nonsense")).is_err());
    }
    // a rollback is not parsed
    let converted = native::rtc_description(description(SDPType::Rollback, "nonsense")).unwrap();
    assert_eq!(converted.sdp, "nonsense");
    let error = native::rtc_description(description(SDPType::Offer, "nonsense")).unwrap_err();
    assert!(matches!(NativeError::from(error), NativeError::WebRtcError(_)));
}

#[test]
fn unspecified_values_are_taken_for_defaults() {
    assert_eq!(SDPType::from(ReportedSdpType::Unspecified), SDPType::Answer);
    assert_eq!(SDPType::from(ReportedSdpType::Offer), SDPType::Offer);
    assert_eq!(SDPType::from(ReportedSdpType::Pranswer), SDPType::Pranswer);
    assert_eq!(SDPType::from(ReportedSdpType::Rollback), SDPType::Rollback);
    assert_eq!(
        PeerConnectionState::from(ReportedConnectionState::Unspecified),
        PeerConnectionState::New
    );
    assert_eq!(
        PeerConnectionState::from(ReportedConnectionState::Failed),
        PeerConnectionState::Failed
    );
    assert!(is_connected(PeerConnectionState::from(ReportedConnectionState::Connected)));
    assert!(!is_connected(PeerConnectionState::from(ReportedConnectionState::Connecting)));
}

fn gathered() -> GatheredCandidate {
    GatheredCandidate {
        foundation: "1".to_string(),
        priority: 2_130_706_431,
        address: "127.0.0.1".to_string(),
        protocol: "udp".to_string(),
        port: 5000,
        typ: "host".to_string(),
        component: 1,
        related_address: String::new(),
        related_port: 0,
    }
}

#[test]
fn gathered_candidates_are_put_into_text() {
    let message = native::handle_ice_candidate(Some(gathered()));
    assert_eq!(
        message,
        Some(Some(ICECandidate {
            candidate: "candidate:1 1 udp 2130706431 127.0.0.1 5000 typ host".to_string(),
            sdp_mid: Some(String::new()),
            sdp_mline_index: Some(0),
            username_fragment: None,
        }))
    );
    let relay = GatheredCandidate {
        typ: "relay".to_string(),
        related_address: "10.0.0.1".to_string(),
        related_port: 6000,
        ..gathered()
    };
    assert_eq!(
        native::handle_ice_candidate(Some(relay)).unwrap().unwrap().candidate,
        "candidate:1 1 udp 2130706431 127.0.0.1 5000 typ relay raddr 10.0.0.1 rport 6000"
    );
    // without a priority, one is worked out
    let plain = GatheredCandidate { priority: 0, ..gathered() };
    assert_eq!(
        native::handle_ice_candidate(Some(plain)).unwrap().unwrap().candidate,
        "candidate:1 1 udp 2130706431 127.0.0.1 5000 typ host"
    );
}

#[test]
fn candidates_that_cannot_be_put_into_text_are_passed_over() {
    let unknown = GatheredCandidate { typ: "other".to_string(), ..gathered() };
    assert_eq!(native::handle_ice_candidate(Some(unknown)), None);
    let nowhere = GatheredCandidate { address: "nowhere".to_string(), ..gathered() };
    assert_eq!(native::handle_ice_candidate(Some(nowhere)), None);
}

#[test]
fn candidates_without_a_priority() {
    let unreadable = || GatheredCandidate {
        address: "nowhere".to_string(),
        priority: 0,
        component: 300,
        ..gathered()
    };
    let unknown = || GatheredCandidate {
        typ: "other".to_string(),
        priority: 0,
        component: 300,
        ..gathered()
    };
    // these are passed over, whatever their priority
    assert_eq!(native::handle_ice_candidate(Some(unreadable())), None);
    assert_eq!(native::handle_ice_candidate(Some(unknown())), None);
    assert!(matches!(native::try_handle_ice_candidate(Some(unreadable())), Ok(None)));
    assert!(matches!(native::try_handle_ice_candidate(Some(unknown())), Ok(None)));
    // this one could be put into text if it had a priority
    let lacking = GatheredCandidate { priority: 0, component: 300, ..gathered() };
    let given_back = native::try_handle_ice_candidate(Some(lacking)).unwrap_err();
    assert_eq!(given_back.component, 300);
    assert_eq!(given_back.priority, 0);
    assert_eq!(given_back.address, "127.0.0.1");
    // and these have one
    let last = GatheredCandidate { priority: 0, component: 256, ..gathered() };
    assert_eq!(
        native::try_handle_ice_candidate(Some(last)).unwrap().unwrap().unwrap().candidate,
        "candidate:1 256 udp 2130706176 127.0.0.1 5000 typ host"
    );
    let large = GatheredCandidate { component: 300, ..gathered() };
    assert_eq!(
        native::try_handle_ice_candidate(Some(large)).unwrap().unwrap().unwrap().candidate,
        "candidate:1 300 udp 2130706431 127.0.0.1 5000 typ host"
    );
    assert!(matches!(native::try_handle_ice_candidate(None), Ok(Some(None))));
}

#[test]
fn the_end_of_the_gathering_is_sent_on() {
    assert_eq!(native::handle_ice_candidate(None), Some(None));
    assert_eq!(wasm::handle_ice_candidate(None), None);
}

#[test]
fn native_candidates_are_collected_until_the_end() {
    let mut collector = CandidateCollector::new();
    assert!(native::collect_ice_candidate(&mut collector, Some(Some(candidate("a")))));
    assert!(native::collect_ice_candidate(&mut collector, Some(Some(candidate("b")))));
    assert!(!native::collect_ice_candidate(&mut collector, Some(None)));
    assert_eq!(collector.finish(), vec![candidate("a"), candidate("b")]);
    // a channel that was closed ends the gathering too
    let mut collector = CandidateCollector::new();
    assert!(native::collect_ice_candidate(&mut collector, Some(Some(candidate("a")))));
    assert!(!native::collect_ice_candidate(&mut collector, None));
    assert_eq!(collector.finish(), vec![candidate("a")]);
}

#[test]
fn browser_candidates_are_collected_until_the_end() {
    let mut collector = CandidateCollector::new();
    let more = wasm::collect_ice_candidate(&mut collector, Some(Some(candidate("a"))));
    assert!(matches!(more, Ok(true)));
    assert!(matches!(wasm::collect_ice_candidate(&mut collector, Some(None)), Ok(false)));
    assert!(matches!(
        wasm::collect_ice_candidate(&mut collector, None),
        Err(Error::MpscRecvError)
    ));
    assert_eq!(collector.finish(), vec![candidate("a")]);
}

#[test]
fn browser_candidates_have_no_user_name() {
    let message = wasm::handle_ice_candidate(Some((
        "text".to_string(),
        Some("mid".to_string()),
        Some(3),
    )));
    assert_eq!(
        message,
        Some(ICECandidate {
            candidate: "text".to_string(),
            sdp_mid: Some("mid".to_string()),
            sdp_mline_index: Some(3),
            username_fragment: None,
        })
    );
}

#[test]
fn channel_dictionaries() {
    let options = DataChannelOptions {
        ordered: Some(true),
        max_packet_life_time: Some(5),
        max_retransmits: None,
        protocol: Some("chat".to_string()),
        negotiated: None,
    };
    let dict = wasm::data_channel_dict(7, &options);
    assert_eq!(dict.ordered, Some(true));
    assert_eq!(dict.max_packet_life_time, Some(5));
    assert_eq!(dict.max_retransmits, None);
    assert_eq!(dict.protocol, Some("chat".to_string()));
    assert_eq!(dict.negotiated, None);
    assert_eq!(dict.id, 7);
    assert_eq!(wasm::data_channel_dict(0x1_0002, &options).id, 2);
    let options = DataChannelOptions { negotiated: Some(9), ..Default::default() };
    let dict = wasm::data_channel_dict(7, &options);
    assert_eq!(dict.negotiated, Some(true));
    assert_eq!(dict.id, 9);
}

#[test]
fn channel_ids_of_the_browser() {
    assert_eq!(wasm::channel_id(Some(3)), 3);
    assert_eq!(wasm::channel_id(None), 0);
}

#[test]
fn channel_events() {
    assert!(matches!(
        native::handle_data_channel(ChannelEvent::Open),
        ChannelAction::SetReady(true)
    ));
    assert!(matches!(native::handle_data_channel(ChannelEvent::Close), ChannelAction::Ignore));
    assert!(matches!(native::handle_data_channel(ChannelEvent::Error), ChannelAction::Ignore));
    assert!(matches!(
        native::handle_data_channel(ChannelEvent::Message(Some(vec![1, 2]))),
        ChannelAction::Deliver(data) if data == vec![1, 2]
    ));
    assert!(matches!(
        wasm::handle_data_channel(ChannelEvent::Open),
        ChannelAction::SetReady(true)
    ));
    assert!(matches!(
        wasm::handle_data_channel(ChannelEvent::Close),
        ChannelAction::SetReady(false)
    ));
    assert!(matches!(
        wasm::handle_data_channel(ChannelEvent::Message(None)),
        ChannelAction::Ignore
    ));
    assert!(matches!(
        wasm::handle_data_channel(ChannelEvent::Message(Some(vec![3]))),
        ChannelAction::Deliver(data) if data == vec![3]
    ));
}

#[test]
fn browser_errors_say_what_happened() {
    assert_eq!(Error::MpscRecvError.message(), "data channel senders dropped!");
    assert_eq!(Error::WebRtcError("x".to_string()).message(), "webrtc error: x");
    assert_eq!(Error::DataChannelClosed.message(), "data channel closed!");
    assert!(matches!(wasm::received(Some(1)), Ok(1)));
    assert!(matches!(wasm::received::<u8>(None), Err(Error::MpscRecvError)));
}

#[test]
fn a_real_offer_goes_through_the_library() {
    let runtime = tokio::runtime::Runtime::new().unwrap();
    let offer = runtime.block_on(async {
        let api = webrtc::api::APIBuilder::default().build();
        let connection = api.new_peer_connection(Default::default()).await.unwrap();
        connection.create_data_channel("test_channel_0", None).await.unwrap();
        let offer = connection.create_offer(None).await.unwrap();
        connection.close().await.unwrap();
        offer
    });
    let description = native::session_description(offer);
    assert_eq!(description.sdp_type, SDPType::Offer);
    assert!(description.sdp.contains("m=application"));
    let again = native::rtc_description(description.clone()).unwrap();
    assert_eq!(native::session_description(again), description);
}
