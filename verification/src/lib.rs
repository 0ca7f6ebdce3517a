//! Core of a directory and rendezvous server for an end-to-end encrypted
//! messaging network: clients register a handle and public key, look each
//! other up, and receive a relay path through which peer-to-peer traffic can
//! be routed.
//!
//! This crate holds the verified protocol logic: wire framing, the protocol
//! message model, the directory of registered users with its uniqueness
//! invariant, route construction, and request dispatch. Sockets, the cipher,
//! and the structured message encoding live outside the crate; they exchange
//! plain values (byte vectors, strings, decoded messages) with the functions
//! here.

pub mod addr;
pub mod directory;
pub mod dispatch;
pub mod framing;
pub mod protocol;
pub mod route;
