use rustdesk_server::addr::PeerAddr;
use rustdesk_server::chat::{reaches, username_or_default, CastTable, Client};
use rustdesk_server::clock::get_time;
use rustdesk_server::consumer::{batch_a, batch_b, ChannelError, Channels};
use rustdesk_server::greeter::MyGreeter;
use rustdesk_server::multicast::{
    default_multicast, default_port, default_username, ip_all, is_multicast_v4,
};
use rustdesk_server::table::Table;

fn client(ts: u64, peer: &str) -> Client {
    Client {
        timestamp: ts,
        local_addr: "10.0.0.1".to_string(),
        peer_addr: peer.to_string(),
        uuid: String::new(),
    }
}

#[test]
fn greeting_names_the_caller() {
    let g = MyGreeter::default();
    assert_eq!(g.say_hello("Tonic"), "Hello 456  Tonic!");
    assert_eq!(g.say_hello(""), "Hello 456  !");
}

#[test]
fn cast_passes_only_from_peer() {
    let mut t = CastTable::new();
    assert!(!t.passes(&"10.0.0.1".to_string(), &"10.0.0.2".to_string()));
    t.register("10.0.0.1".to_string(), client(50_000, "10.0.0.2"));
    assert!(t.passes(&"10.0.0.1".to_string(), &"10.0.0.2".to_string()));
    assert!(!t.passes(&"10.0.0.1".to_string(), &"10.0.0.3".to_string()));
    assert!(!t.passes(&"10.0.0.2".to_string(), &"10.0.0.1".to_string()));
    assert_eq!(t.lookup(&"10.0.0.1".to_string()).unwrap().peer_addr, "10.0.0.2");
}

#[test]
fn cast_sweep() {
    let mut t = CastTable::new();
    t.register("a".to_string(), client(10_000, "x"));
    t.register("b".to_string(), client(25_001, "x"));
    t.expire_stale_at(45_000);
    assert!(t.lookup(&"a".to_string()).is_none());
    assert!(t.lookup(&"b".to_string()).is_some());
    t.register("c".to_string(), client(get_time(), "x"));
    assert!(t.expire_stale());
    assert!(t.lookup(&"c".to_string()).is_some());
    assert!(t.lookup(&"b".to_string()).is_none());
}

#[test]
fn broadcast_skips_sender() {
    let a = PeerAddr::new("127.0.0.1".to_string(), 5000);
    let b = PeerAddr::new("127.0.0.1".to_string(), 5001);
    assert!(reaches(&a, &b));
    assert!(!reaches(&a, &a.clone()));
}

#[test]
fn username_defaults() {
    assert_eq!(username_or_default(Some("alice".to_string())), "alice");
    assert_eq!(username_or_default(None), "hah");
}

#[test]
fn consumer_channels() {
    let mut c = Channels::new();
    assert_eq!(c.channel_pair(), Err(ChannelError::None1));
    c.register_a(1);
    assert_eq!(c.channel_pair(), Err(ChannelError::None1));
    c.register_b(2);
    assert_eq!(c.channel_pair(), Ok((2, 1)));
    assert_eq!(batch_a(), vec!["111", "222", "3333"]);
    assert_eq!(batch_b(), vec!["444", "555", "666"]);
}

#[test]
fn multicast_settings() {
    assert_eq!(default_port(), 5050);
    assert_eq!(default_multicast(), [239, 1, 1, 50]);
    assert_eq!(ip_all(), [0, 0, 0, 0]);
    assert_eq!(default_username(), "Anonymous");
    assert!(is_multicast_v4(default_multicast()));
    assert!(is_multicast_v4([224, 0, 0, 1]));
    assert!(!is_multicast_v4([223, 255, 255, 255]));
    assert!(!is_multicast_v4([240, 0, 0, 0]));
}

#[test]
fn table_insert_get_replace() {
    let mut t: Table<String, u64> = Table::new();
    assert!(!t.contains(&"k".to_string()));
    t.insert("k".to_string(), 1);
    t.insert("j".to_string(), 2);
    t.insert("k".to_string(), 3);
    assert_eq!(t.get(&"k".to_string()), Some(3));
    assert_eq!(t.get(&"j".to_string()), Some(2));
    assert_eq!(t.get(&"z".to_string()), None);
    assert_eq!(t.key_with_value(&2), Some("j".to_string()));
    assert_eq!(t.key_with_value(&1), None);
}

#[test]
fn broadcast_tells_ipv6_scopes_apart() {
    let a = PeerAddr::new_v6("fe80::1".to_string(), 5000, 0, 1);
    let b = PeerAddr::new_v6("fe80::1".to_string(), 5000, 0, 2);
    let c = PeerAddr::new_v6("fe80::1".to_string(), 5000, 7, 1);
    assert!(reaches(&a, &b));
    assert!(reaches(&a, &c));
    assert!(!reaches(&a, &PeerAddr::new_v6("fe80::1".to_string(), 5000, 0, 1)));
}

#[test]
fn cast_sweep_at_reports_whether_it_swept() {
    let mut t = CastTable::new();
    t.register("a".to_string(), client(1_000, "x"));
    assert!(!t.sweep_at(10_000));
    assert!(t.lookup(&"a".to_string()).is_some());
    assert!(t.sweep_at(21_000));
    assert!(t.lookup(&"a".to_string()).is_none());
}
