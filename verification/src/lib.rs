//! Client core for a cloud-hosted smart-speaker service.
//!
//! The crate covers the protocol logic of the client: password hashing and
//! per-step signing for the login handshake, the handshake state machine
//! itself, the cookie-backed session with its persistence format, the signed
//! request layer, the device command protocol (ubus call triples), and the
//! polling decision rule.  Network transport is left to the caller: every
//! request is produced as a plain value, and every response is consumed as
//! plain bytes.

pub mod commands;
pub mod error;
pub mod login;
pub mod poll;
pub mod request;
pub mod response;
pub mod session;
pub mod signing;
pub mod text;
