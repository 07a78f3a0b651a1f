//! The session-sharing protocol.
//! All messages defined here are shared across the client and server.
//! Their wire encoding (JSON) lives with the application; this crate holds the
//! message model and the protocol's decision logic with its contracts.
pub mod common;
pub mod sharer;
pub mod viewer;
