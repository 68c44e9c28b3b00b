//! Signalling for full-mesh WebRTC connections: the messages, the server's state and the client's
//! state machine.

pub mod client;
pub mod codec;
pub mod feed;
pub mod laws;
pub mod mailbox;
pub mod pb;
pub mod peer;
pub mod pem;
pub mod serve;
pub mod server;
pub mod status;
