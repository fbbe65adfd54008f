//! The datagrams that the UDP side sends on the notices of TCP sessions.
use vstd::prelude::*;

use uuid::Uuid;

use crate::addr::PeerAddr;
use crate::protocol::{relay_server, spec_relay_server, Event, RendezvousOut};
use crate::table::Keyed;

verus! {

/// `s` is a UUID in hyphenated lower-case form: 36 characters, hyphens at
/// positions 8, 13, 18 and 23, lower-case hexadecimal digits elsewhere.
pub open spec fn is_hyphenated_uuid(s: Seq<char>) -> bool {
    &&& s.len() == 36
    &&& forall|i: int|
        0 <= i < 36 ==> if i == 8 || i == 13 || i == 18 || i == 23 {
            #[trigger] s[i] == '-'
        } else {
            ('0' <= s[i] <= '9') || ('a' <= s[i] <= 'f')
        }
}

/// `s` is a random (version 4) UUID in hyphenated lower-case form: its
/// version digit is `4` and its variant digit is one of `8`, `9`, `a`, `b`.
pub open spec fn is_v4_uuid(s: Seq<char>) -> bool {
    &&& is_hyphenated_uuid(s)
    &&& s[14] == '4'
    &&& (s[19] == '8' || s[19] == '9' || s[19] == 'a' || s[19] == 'b')
}

/// The lower-case hexadecimal digit for a nibble `n` (below 16).
pub open spec fn hex_digit(n: int) -> char {
    if n < 10 {
        (n + 48) as char
    } else {
        (n + 87) as char
    }
}

/// How many hyphens of the hyphenated form stand before position `i`.
pub open spec fn hyphens_before(i: int) -> int {
    (if i > 8 { 1int } else { 0 }) + (if i > 13 { 1int } else { 0 }) + (if i > 18 {
        1int
    } else {
        0
    }) + (if i > 23 { 1int } else { 0 })
}

/// The hyphenated lower-case text of the UUID with bytes `b` (most
/// significant first): two hexadecimal digits per byte, high nibble first,
/// with hyphens after the 4th, 6th, 8th and 10th byte.
pub open spec fn hyphenated_text(b: Seq<u8>) -> Seq<char> {
    Seq::new(
        36,
        |i: int|
            if i == 8 || i == 13 || i == 18 || i == 23 {
                '-'
            } else {
                let j = i - hyphens_before(i);
                hex_digit(
                    if j % 2 == 0 {
                        b[j / 2] / 16
                    } else {
                        b[j / 2] % 16
                    } as int,
                )
            },
    )
}

/// Calls `uuid::Uuid::new_v4` and takes its bytes with `Uuid::into_bytes`.
/// The bytes are random; what every outcome shares is what uuid's `v4.rs`
/// fixes: `new_v4` masks a random `u128` with `0xFFFFFFFFFFFF4FFFBFFFFFFFFFFFFFFF`
/// and sets `0x40008000000000000000`, and `from_u128` lays it out most
/// significant byte first. So the high nibble of byte 6 is 4 (the version)
/// and the top two bits of byte 8 are `10` (the variant).
#[verifier::external_body]
fn random_uuid_bytes() -> (b: [u8; 16])
    ensures
        b@[6] / 16 == 4,
        b@[8] / 64 == 2,
{
    Uuid::new_v4().into_bytes()
}

/// Calls `Uuid::from_bytes` and `to_string` on the UUID: its `Display` writes
/// the hyphenated lower-case form (uuid's `fmt.rs`: `format_hyphenated` with
/// lower-case digits, `nibble_to_hex` adding `'0'`, or `'a' - 10` from ten on).
#[verifier::external_body]
fn uuid_text(b: [u8; 16]) -> (s: String)
    ensures
        s@ == hyphenated_text(b@),
{
    Uuid::from_bytes(b).to_string()
}

/// The text of a UUID whose bytes carry the version-4 and variant marks is a
/// version-4 UUID in hyphenated lower-case form.
pub proof fn lemma_v4_text(b: Seq<u8>)
    requires
        b.len() == 16,
        b[6] / 16 == 4,
        b[8] / 64 == 2,
    ensures
        is_v4_uuid(hyphenated_text(b)),
{
    let s = hyphenated_text(b);
    assert forall|i: int|
        0 <= i < 36 implies if i == 8 || i == 13 || i == 18 || i == 23 {
        #[trigger] s[i] == '-'
    } else {
        ('0' <= s[i] <= '9') || ('a' <= s[i] <= 'f')
    } by {
        if !(i == 8 || i == 13 || i == 18 || i == 23) {
            let j = i - hyphens_before(i);
            assert(0 <= j < 32);
            let byte = b[j / 2];
            assert(byte / 16 < 16 && byte % 16 < 16);
        }
    }
    assert(hyphens_before(14) == 2);
    assert(hyphens_before(19) == 3);
    assert(s[14] == hex_digit((b[6] / 16) as int));
    assert(s[19] == hex_digit((b[8] / 16) as int));
    assert(8 <= b[8] / 16 <= 11);
}

/// The datagram for a notice, with `uuid` as the relay uuid: on the first
/// step of hole punching the peer's address is asked for its local address,
/// on the second it is asked to connect to the relay.
pub open spec fn datagram_rule(
    ev: Event,
    uuid: Seq<char>,
    out: Option<(RendezvousOut, PeerAddr)>,
) -> bool {
    match ev {
        Event::First(_, a) => out matches Some((RendezvousOut::FetchLocalAddr { relay_server: r }, to))
            && r@ == spec_relay_server() && to@ == a@,
        Event::Second(id, b) => out matches Some(
            (RendezvousOut::RequestRelay { id: i, uuid: u, relay_server: r }, to),
        ) && i@ == id@ && u@ == uuid && r@ == spec_relay_server() && to@ == b@,
        Event::UnNone => out is None,
    }
}

/// The datagram to send for notice `ev`, and where to, using `uuid` as the
/// relay uuid.
pub fn datagram_with_uuid(ev: &Event, uuid: String) -> (out: Option<(RendezvousOut, PeerAddr)>)
    ensures
        datagram_rule(*ev, uuid@, out),
{
    match ev {
        Event::First(_, a) => Some(
            (RendezvousOut::FetchLocalAddr { relay_server: relay_server() }, a.duplicate()),
        ),
        Event::Second(id, b) => Some(
            (
                RendezvousOut::RequestRelay {
                    id: id.clone(),
                    uuid,
                    relay_server: relay_server(),
                },
                b.duplicate(),
            ),
        ),
        Event::UnNone => None,
    }
}

/// The datagram to send for notice `ev`, and where to; a relay request
/// carries a fresh random (version 4) uuid.
pub fn datagram_for_event(ev: &Event) -> (out: Option<(RendezvousOut, PeerAddr)>)
    ensures
        match *ev {
            Event::Second(_, _) => exists|u: Seq<char>|
                is_v4_uuid(u) && #[trigger] datagram_rule(*ev, u, out),
            _ => datagram_rule(*ev, Seq::empty(), out),
        },
{
    match ev {
        Event::Second(_, _) => {
            let bytes = random_uuid_bytes();
            let text = uuid_text(bytes);
            proof {
                lemma_v4_text(bytes@);
            }
            let out = datagram_with_uuid(ev, text);
            assert(datagram_rule(*ev, text@, out));
            out
        },
        _ => datagram_with_uuid(ev, String::new()),
    }
}

} // verus!
