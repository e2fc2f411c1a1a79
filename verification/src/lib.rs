//! The client side of the Mumble control protocol, without its transport.
//!
//! The library frames and reads control messages, keeps the state of a
//! session, and decides what a client does next: when a keepalive is due,
//! what to make of the bytes that were read, what to write for a command.
//! Reading, writing, waiting and the bodies of the messages are left to the
//! caller, who hands the library plain values and gets plain values back.

#![allow(unused_imports)]

pub mod channel;
pub mod common;
pub mod errors;
pub mod heartbeat;
pub mod mumble;
pub mod mumbleproto;
pub mod packet;
pub mod ping;
pub mod session;
pub mod socket;
pub mod utils;
pub mod voice;
pub mod wire;
