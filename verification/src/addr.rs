//! The address of a peer as the server's rules see it: the textual form of its
//! IP address and its port.
use vstd::prelude::*;

use crate::table::Keyed;

verus! {

/// A socket address: the IP address in its usual text form (as `IpAddr`
/// prints it), the port, and for an IPv6 address its flow information and
/// scope id (both 0 for IPv4).
#[derive(Debug, Clone)]
pub struct PeerAddr {
    pub ip: String,
    pub port: u16,
    pub flowinfo: u32,
    pub scope_id: u32,
}

impl View for PeerAddr {
    type V = (Seq<char>, u16, u32, u32);

    open spec fn view(&self) -> (Seq<char>, u16, u32, u32) {
        (self.ip@, self.port, self.flowinfo, self.scope_id)
    }
}

impl PeerAddr {
    /// The IPv4 address with IP text `ip` and port `port`.
    pub fn new(ip: String, port: u16) -> (r: PeerAddr)
        ensures
            r@ == (ip@, port, 0u32, 0u32),
    {
        PeerAddr { ip, port, flowinfo: 0, scope_id: 0 }
    }

    /// The IPv6 address with IP text `ip`, port `port`, flow information
    /// `flowinfo` and scope id `scope_id`.
    pub fn new_v6(ip: String, port: u16, flowinfo: u32, scope_id: u32) -> (r: PeerAddr)
        ensures
            r@ == (ip@, port, flowinfo, scope_id),
    {
        PeerAddr { ip, port, flowinfo, scope_id }
    }

    /// The text of the IP address alone (`addr.ip().to_string()`).
    pub fn ip_text(&self) -> (s: String)
        ensures
            s@ == self@.0,
    {
        self.ip.clone()
    }
}

impl Keyed for PeerAddr {
    fn same_as(&self, other: &Self) -> (r: bool) {
        self.port == other.port && self.flowinfo == other.flowinfo && self.scope_id
            == other.scope_id && self.ip == other.ip
    }

    fn duplicate(&self) -> (r: Self) {
        PeerAddr {
            ip: self.ip.clone(),
            port: self.port,
            flowinfo: self.flowinfo,
            scope_id: self.scope_id,
        }
    }
}

} // verus!
