//! What holds of every call: of what is put into text, of peer connections and how they are built,
//! and of what the platforms report.

pub mod builder;
pub mod connection;
pub mod generic;
pub mod platform;
pub mod text;
pub mod types;
