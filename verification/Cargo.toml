[package]
name = "just_webrtc"
version = "0.1.0"
edition = "2021"
publish = false

[dependencies]
anyhow = "1"
async-broadcast = "0.7"
async-stream = "0.3"
async_cell = "0.2"
bincode = "1.3"
bytes = "1"
flume = "0.11"
futures-util = "0.3"
http = "0.2"
js-sys = "0.3"
local-channel = "0.1"
log = "0.4"
pretty_env_logger = "0.5"
prost = "0.12"
serde = { version = "1", features = ["derive"] }
serde-wasm-bindgen = "0.6"
thiserror = "1"
tokio = { version = "1", features = ["macros", "rt-multi-thread", "sync", "time"] }
tonic = { version = "0.11", features = ["tls"] }
tonic-web = "0.11"
tonic-web-wasm-client = "0.5"
tower-http = { version = "0.4", features = ["cors"] }
trait-variant = "0.1"
wasm-bindgen = "0.2"
wasm-bindgen-futures = "0.4"
web-sys = { version = "0.3", features = ["Event", "MessageEvent", "RtcBundlePolicy", "RtcConfiguration", "RtcDataChannel", "RtcDataChannelEvent", "RtcDataChannelInit", "RtcDataChannelType", "RtcIceCandidate", "RtcIceCandidateInit", "RtcIceConnectionState", "RtcIceGatheringState", "RtcIceTransportPolicy", "RtcPeerConnection", "RtcPeerConnectionIceEvent", "RtcPeerConnectionState", "RtcSdpType", "RtcSessionDescription", "RtcSessionDescriptionInit"] }
webrtc = "0.10"
