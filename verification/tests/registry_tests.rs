use std::time::{Duration, SystemTime, UNIX_EPOCH};
use rustdesk_server::addr::PeerAddr;
use rustdesk_server::clock::{
    elapsed_parts, get_time, millis_as_unsigned, millis_of, now, timestamp_from_millis,
    timestamp_of, utc_millis, utc_timestamp_of,
};
use rustdesk_server::protocol::{Event, RendezvousIn, RendezvousOut};
use rustdesk_server::punch::{datagram_for_event, datagram_with_uuid};
use rustdesk_server::registry::{heartbeat_limit_ms, Registry};

fn addr(ip: &str, port: u16) -> PeerAddr {
    PeerAddr::new(ip.to_string(), port)
}

#[test]
fn clock_reads_after_2020() {
    // 2020-01-01T00:00:00Z in milliseconds.
    assert!(get_time() > 1_577_836_800_000);
    assert!(now() > 1_577_836_800_000);
    assert!(now() <= i64::MAX as u64);
}

#[test]
fn timestamp_cuts_to_64_bits() {
    assert_eq!(timestamp_from_millis(None), 0);
    assert_eq!(timestamp_from_millis(Some(1_700_000_000_123)), 1_700_000_000_123);
    assert_eq!(timestamp_from_millis(Some((1u128 << 64) + 7)), 7);
    assert_eq!(millis_as_unsigned(42), 42);
    assert_eq!(millis_as_unsigned(-1), u64::MAX);
}

#[test]
fn first_heartbeat_asks_for_key() {
    let mut r = Registry::new();
    let a = addr("10.0.0.1", 4000);
    let reply = r.handle_udp_at(&RendezvousIn::RegisterPeer { id: "460351640".to_string() }, &a, 50_000);
    match reply {
        Some(RendezvousOut::RegisterPeerResponse { request_pk }) => assert!(request_pk),
        other => panic!("unexpected reply {:?}", other),
    }
    let entry = r.lookup_id(&"460351640".to_string()).unwrap();
    assert_eq!(entry.timestamp, 50_000);
    assert_eq!(entry.local_addr.ip, "10.0.0.1");
    assert_eq!(entry.local_addr.port, 4000);
    assert_eq!(entry.peer_ip, "");
    assert_eq!(entry.uuid, "");
    let by_ip = r.lookup_ip(&"10.0.0.1".to_string()).unwrap();
    assert_eq!(by_ip.uuid, "460351640");
    assert_eq!(by_ip.peer_ip, "");
}

#[test]
fn second_heartbeat_keeps_key() {
    let mut r = Registry::new();
    let a = addr("10.0.0.1", 4000);
    let msg = RendezvousIn::RegisterPeer { id: "7".to_string() };
    r.handle_udp_at(&msg, &a, 30_000);
    let reply = r.handle_udp_at(&msg, &a, 31_000);
    match reply {
        Some(RendezvousOut::RegisterPeerResponse { request_pk }) => assert!(!request_pk),
        other => panic!("unexpected reply {:?}", other),
    }
    assert_eq!(r.lookup_id(&"7".to_string()).unwrap().timestamp, 31_000);
}

#[test]
fn key_announcement_is_accepted() {
    let mut r = Registry::new();
    let a = addr("10.0.0.1", 4000);
    match r.handle_udp_at(&RendezvousIn::RegisterPk, &a, 30_000) {
        Some(RendezvousOut::RegisterPkOk) => {}
        other => panic!("unexpected reply {:?}", other),
    }
    assert!(r.lookup_ip(&"10.0.0.1".to_string()).is_none());
    assert!(r.handle_udp_at(&RendezvousIn::SoftwareUpdate, &a, 30_000).is_none());
    assert!(r.handle_udp_at(&RendezvousIn::Other, &a, 30_000).is_none());
}

#[test]
fn heartbeat_with_clock() {
    let mut r = Registry::new();
    let a = addr("10.0.0.9", 1);
    assert!(r.handle_udp(&RendezvousIn::RegisterPeer { id: "x".to_string() }, &a).is_some());
    assert!(r.lookup_id(&"x".to_string()).unwrap().timestamp > 1_577_836_800_000);
}

#[test]
fn sweep_removes_silent_peers() {
    let mut r = Registry::new();
    assert_eq!(heartbeat_limit_ms(), 20_000);
    r.register_peer_at("old".to_string(), addr("10.0.0.1", 1), 100_000);
    r.register_peer_at("edge".to_string(), addr("10.0.0.2", 1), 110_000);
    r.register_peer_at("new".to_string(), addr("10.0.0.3", 1), 115_000);
    r.expire_stale_at(130_000);
    assert!(r.lookup_id(&"old".to_string()).is_none());
    // Exactly at the limit is not later than the cutoff.
    assert!(r.lookup_id(&"edge".to_string()).is_none());
    assert_eq!(r.lookup_id(&"new".to_string()).unwrap().timestamp, 115_000);
    // The table by address is not swept.
    assert!(r.lookup_ip(&"10.0.0.1".to_string()).is_some());
}

#[test]
fn sweep_with_clock_keeps_fresh_peer() {
    let mut r = Registry::new();
    r.register_peer_at("fresh".to_string(), addr("10.0.0.1", 1), get_time());
    r.register_peer_at("stale".to_string(), addr("10.0.0.2", 1), 5);
    assert!(r.expire_stale());
    assert!(r.lookup_id(&"fresh".to_string()).is_some());
    assert!(r.lookup_id(&"stale".to_string()).is_none());
}

#[test]
fn heartbeat_keeps_recorded_pairing() {
    let mut r = Registry::new();
    r.register_peer_at("b".to_string(), addr("10.0.0.2", 5), 40_000);
    // A hole punch reported from 10.0.0.1 towards the peer registered under
    // the address text "10.0.0.2" records the pairing under 10.0.0.1 by id.
    r.record_hole_punch_at(&"10.0.0.2".to_string(), addr("10.0.0.1", 7), 41_000);
    let e = r.lookup_id(&"10.0.0.1".to_string()).unwrap();
    assert_eq!(e.peer_ip, "10.0.0.2");
    assert_eq!(e.timestamp, 41_000);
    assert_eq!(e.local_addr.port, 7);
    assert_eq!(e.uuid, "");
}

#[test]
fn hole_punch_with_clock() {
    let mut r = Registry::new();
    r.register_peer_at("b".to_string(), addr("10.0.0.2", 5), 40_000);
    r.record_hole_punch(&"10.0.0.2".to_string(), addr("10.0.0.1", 7));
    assert!(r.lookup_id(&"10.0.0.1".to_string()).unwrap().timestamp > 1_577_836_800_000);
}

#[test]
fn broadcast_goes_to_paired_address_only() {
    let mut r = Registry::new();
    assert!(!r.passes_broadcast(&"10.0.0.1".to_string(), &"10.0.0.2".to_string()));
    r.register_peer_at("a".to_string(), addr("10.0.0.1", 1), 30_000);
    // Registered but not paired: the recorded peer is the empty text.
    assert!(!r.passes_broadcast(&"10.0.0.1".to_string(), &"10.0.0.2".to_string()));
    assert!(r.passes_broadcast(&"10.0.0.1".to_string(), &"".to_string()));
}

#[test]
fn first_step_asks_for_local_address() {
    let ev = Event::First("5".to_string(), addr("1.2.3.4", 99));
    match datagram_for_event(&ev) {
        Some((RendezvousOut::FetchLocalAddr { relay_server }, to)) => {
            assert_eq!(relay_server, "39.107.33.253:21117");
            assert_eq!(to.ip, "1.2.3.4");
            assert_eq!(to.port, 99);
        }
        other => panic!("unexpected datagram {:?}", other),
    }
    assert!(datagram_for_event(&Event::UnNone).is_none());
}

#[test]
fn second_step_requests_relay_with_fresh_uuid() {
    let ev = Event::Second("5".to_string(), addr("1.2.3.4", 99));
    let first = datagram_for_event(&ev);
    let second = datagram_for_event(&ev);
    let uuid_of = |d: Option<(RendezvousOut, PeerAddr)>| match d {
        Some((RendezvousOut::RequestRelay { id, uuid, relay_server }, to)) => {
            assert_eq!(id, "5");
            assert_eq!(relay_server, "39.107.33.253:21117");
            assert_eq!(to.port, 99);
            uuid
        }
        other => panic!("unexpected datagram {:?}", other),
    };
    let u1 = uuid_of(first);
    let u2 = uuid_of(second);
    assert_eq!(u1.len(), 36);
    for (i, c) in u1.chars().enumerate() {
        if i == 8 || i == 13 || i == 18 || i == 23 {
            assert_eq!(c, '-');
        } else {
            assert!(c.is_ascii_digit() || ('a'..='f').contains(&c));
        }
    }
    let chars: Vec<char> = u1.chars().collect();
    assert_eq!(chars[14], '4');
    assert!(matches!(chars[19], '8' | '9' | 'a' | 'b'));
    assert_ne!(u1, u2);
}

#[test]
fn datagram_carries_given_uuid() {
    let ev = Event::Second("77".to_string(), addr("9.9.9.9", 1));
    match datagram_with_uuid(&ev, "abc".to_string()) {
        Some((RendezvousOut::RequestRelay { uuid, .. }, _)) => assert_eq!(uuid, "abc"),
        other => panic!("unexpected datagram {:?}", other),
    }
}

#[test]
fn swept_peer_is_asked_for_key_again() {
    let mut r = Registry::new();
    let a = addr("10.0.0.1", 4000);
    let msg = RendezvousIn::RegisterPeer { id: "7".to_string() };
    r.handle_udp_at(&msg, &a, 10_000);
    r.expire_stale_at(40_000);
    match r.handle_udp_at(&msg, &a, 40_001) {
        Some(RendezvousOut::RegisterPeerResponse { request_pk }) => assert!(request_pk),
        other => panic!("unexpected reply {:?}", other),
    }
}

#[test]
fn heartbeat_keeps_address_entry_fields() {
    let mut r = Registry::new();
    r.register_peer_at("a".to_string(), addr("10.0.0.1", 1), 30_000);
    r.register_peer_at("b".to_string(), addr("10.0.0.1", 2), 31_000);
    let e = r.lookup_ip(&"10.0.0.1".to_string()).unwrap();
    assert_eq!(e.uuid, "b");
    assert_eq!(e.peer_ip, "");
    assert_eq!(e.local_addr.port, 2);
    assert_eq!(e.timestamp, 31_000);
}

#[test]
fn utc_millis_counts_from_epoch() {
    assert_eq!(utc_millis(1_700_000_000, 123_456_789), 1_700_000_000_123);
    assert_eq!(utc_millis(0, 0), 0);
    assert_eq!(utc_millis(0, 999_999_999), 999);
    // Beyond the instants chrono can hold.
    assert_eq!(utc_millis(u64::MAX, 0), 0);
    assert_eq!(utc_millis(9_000_000_000_000_000, 0), 0);
}

#[test]
fn sweep_at_reports_whether_it_swept() {
    let mut r = Registry::new();
    r.register_peer_at("a".to_string(), addr("10.0.0.1", 1), 5_000);
    assert!(!r.sweep_at(19_999));
    assert!(r.lookup_id(&"a".to_string()).is_some());
    assert!(r.sweep_at(20_000));
    // Heard at 5 000, cutoff 0: still live.
    assert!(r.lookup_id(&"a".to_string()).is_some());
    assert!(r.sweep_at(25_000));
    assert!(r.lookup_id(&"a".to_string()).is_none());
    assert!(r.lookup_ip(&"10.0.0.1".to_string()).is_some());
}

#[test]
fn elapsed_parts_of_readings() {
    let d = Duration::new(1_700_000_000, 987_654_321);
    assert_eq!(elapsed_parts(Ok(d)), Some((1_700_000_000, 987_654_321)));
    let later = SystemTime::now() + Duration::from_secs(3600);
    assert_eq!(elapsed_parts(UNIX_EPOCH.duration_since(later)), None);
    assert_eq!(millis_of(1_700_000_000, 987_654_321), d.as_millis());
}

#[test]
fn clock_counts_agree_on_one_reading() {
    let parts = Some((1_700_000_000u64, 987_654_321u32));
    assert_eq!(timestamp_of(parts), 1_700_000_000_987);
    assert_eq!(utc_timestamp_of(parts), 1_700_000_000_987);
    assert_eq!(timestamp_of(None), 0);
    assert_eq!(utc_timestamp_of(None), 0);
    // Beyond chrono's range the system count still counts; chrono's gives 0.
    let far = Some((u64::MAX / 1000, 0u32));
    assert_eq!(utc_timestamp_of(far), 0);
    assert_eq!(timestamp_of(far), (u64::MAX / 1000) * 1000);
    let a = get_time();
    let b = now();
    let c = get_time();
    assert!(a <= b && b <= c);
}
