//! A rendezvous and relay server for remote-desktop peers: the registry of
//! peers that announce themselves by UDP heartbeats, the pairing of the two
//! TCP connections that ask for a relay under one peer id, and the rules by
//! which relayed messages are passed on.
#![allow(non_camel_case_types)]

pub mod clock;
pub mod table;
pub mod addr;
pub mod protocol;
pub mod registry;
pub mod session;
pub mod punch;
pub mod chat;
pub mod consumer;
pub mod greeter;
pub mod multicast;
pub mod laws;
