//! WebRTC peers and signalling.
pub mod builder;
pub mod connection;
pub mod generic;
pub mod laws;
pub mod platform;
pub mod signalling;
pub mod text;
pub mod types;
