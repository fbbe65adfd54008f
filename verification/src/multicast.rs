//! The settings of the multicast listener and the check on its group address.
use vstd::prelude::*;

verus! {

/// The port the multicast listener binds.
pub fn default_port() -> (p: u16)
    ensures
        p == 5050,
{
    5050
}

/// The multicast group the listener joins: 239.1.1.50.
pub fn default_multicast() -> (octets: [u8; 4])
    ensures
        octets@ == seq![239u8, 1u8, 1u8, 50u8],
{
    [239, 1, 1, 50]
}

/// The unspecified address 0.0.0.0, on which the listener binds.
pub fn ip_all() -> (octets: [u8; 4])
    ensures
        octets@ == seq![0u8, 0u8, 0u8, 0u8],
{
    [0, 0, 0, 0]
}

/// The name a client uses before it announces one.
pub fn default_username() -> (name: String)
    ensures
        name@ == "Anonymous"@,
{
    String::from_str("Anonymous")
}

/// Whether an IPv4 address is a multicast address: its first octet lies in
/// 224..=239 (the block 224.0.0.0/4).
pub fn is_multicast_v4(octets: [u8; 4]) -> (r: bool)
    ensures
        r == (224 <= octets@[0] && octets@[0] <= 239),
{
    octets[0] >= 224 && octets[0] <= 239
}

} // verus!
