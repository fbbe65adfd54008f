//! The rendezvous messages that the server's rules read and write: for each
//! message, the fields that the rules look at or fill in. Turning them into
//! and out of wire bytes is left to the protocol-buffer code around the
//! library.
use vstd::prelude::*;

use crate::addr::PeerAddr;

verus! {

/// A rendezvous message received from a peer.
#[derive(Debug, Clone)]
pub enum RendezvousIn {
    /// `register_peer`: a UDP heartbeat of the peer with this id.
    RegisterPeer { id: String },
    /// `register_pk`: the peer announces its public key.
    RegisterPk,
    /// `software_update`.
    SoftwareUpdate,
    /// `local_addr`: the controlled side tells its local address.
    LocalAddr { id: String },
    /// `relay_response`.
    RelayResponse,
    /// `test_nat_request`.
    TestNatRequest,
    /// `punch_hole_request`: the controlling side asks for the peer with this id.
    PunchHoleRequest { id: String },
    /// `request_relay`: a side asks to be relayed to the peer with this id.
    RequestRelay { id: String, uuid: String },
    /// Any other message.
    Other,
}

/// A rendezvous message the server sends. Fields that are not listed hold
/// their default values.
#[derive(Debug, Clone)]
pub enum RendezvousOut {
    /// `relay_response` naming a relay server.
    RelayServer { relay_server: String },
    /// `relay_response` that echoes the uuid of a relay request.
    RelayAccepted { uuid: String },
    /// `test_nat_response` with port 0 and an empty `ConfigUpdate`.
    TestNatResponse,
    /// `punch_hole_response` with failure `OFFLINE` and `is_local` false.
    PunchHoleOffline { relay_server: String },
    /// `punch_hole_response` carrying the requester's address, `is_local` false.
    PunchHoleReady { socket_addr: PeerAddr, relay_server: String },
    /// `register_peer_response`.
    RegisterPeerResponse { request_pk: bool },
    /// `register_pk_response` with result `OK`.
    RegisterPkOk,
    /// `fetch_local_addr`; its `socket_addr` is the relay server's address.
    FetchLocalAddr { relay_server: String },
    /// `request_relay` sent to the controlled side.
    RequestRelay { id: String, uuid: String, relay_server: String },
}

/// An internal notice from a TCP connection to the UDP side.
#[derive(Debug, Clone)]
pub enum Event {
    /// First step of hole punching: the peer id asked for, and that peer's address.
    First(String, PeerAddr),
    /// Second step: the peer id, and the address to ask for a relay.
    Second(String, PeerAddr),
    UnNone,
}

/// The relay server announced on the relay port.
pub open spec fn spec_relay_server() -> Seq<char> {
    "39.107.33.253:21117"@
}

/// The server announced in answers to hole punching.
pub open spec fn spec_rendezvous_server() -> Seq<char> {
    "39.107.33.253:21116"@
}

/// The relay server announced on the relay port.
pub fn relay_server() -> (s: String)
    ensures
        s@ == spec_relay_server(),
{
    String::from_str("39.107.33.253:21117")
}

/// The server announced in answers to hole punching.
pub fn rendezvous_server() -> (s: String)
    ensures
        s@ == spec_rendezvous_server(),
{
    String::from_str("39.107.33.253:21116")
}

} // verus!
