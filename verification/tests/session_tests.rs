use rustdesk_server::addr::PeerAddr;
use rustdesk_server::protocol::{Event, RendezvousIn, RendezvousOut};
use rustdesk_server::registry::Registry;
use rustdesk_server::session::{
    from_partner, from_stream, handshake_step, handshake_timeout_ms, pairing_delay_secs,
    relay_idle_limit_secs, relay_timeout_ms, Delivery, PairingError, PeerMessageKind, Shared,
    Side, next_phase, Phase, SessionEvent,
};

fn addr(ip: &str, port: u16) -> PeerAddr {
    PeerAddr::new(ip.to_string(), port)
}

#[test]
fn timeouts_per_side() {
    assert_eq!(handshake_timeout_ms(Side::Passive), 3000);
    assert_eq!(handshake_timeout_ms(Side::Active), 30000);
    assert_eq!(relay_timeout_ms(Side::Passive), 30000);
    assert_eq!(relay_timeout_ms(Side::Active), 3000);
    assert_eq!(relay_idle_limit_secs(), 5);
    assert_eq!(pairing_delay_secs(), 2);
}

#[test]
fn relay_response_names_relay_server() {
    let r = Registry::new();
    for side in [Side::Passive, Side::Active] {
        let step = handshake_step(side, &r, &addr("1.1.1.1", 1), &RendezvousIn::RelayResponse);
        match step.reply {
            Some(RendezvousOut::RelayServer { relay_server }) => {
                assert_eq!(relay_server, "39.107.33.253:21117")
            }
            other => panic!("unexpected reply {:?}", other),
        }
        assert!(!step.done && !step.stop_if_reply_fails && step.event.is_none());
    }
}

#[test]
fn nat_test_is_answered() {
    let r = Registry::new();
    let step = handshake_step(Side::Active, &r, &addr("1.1.1.1", 1), &RendezvousIn::TestNatRequest);
    assert!(matches!(step.reply, Some(RendezvousOut::TestNatResponse)));
    assert!(!step.done);
}

#[test]
fn relay_request_is_accepted_and_ends_handshake() {
    let r = Registry::new();
    let msg = RendezvousIn::RequestRelay { id: "460351640".to_string(), uuid: "u-1".to_string() };
    for side in [Side::Passive, Side::Active] {
        let step = handshake_step(side, &r, &addr("1.1.1.1", 1), &msg);
        match &step.reply {
            Some(RendezvousOut::RelayAccepted { uuid }) => assert_eq!(uuid, "u-1"),
            other => panic!("unexpected reply {:?}", other),
        }
        assert!(step.stop_if_reply_fails);
        assert!(step.done);
        assert_eq!(step.relay_id.as_deref(), Some("460351640"));
    }
}

#[test]
fn punch_hole_to_offline_peer() {
    let r = Registry::new();
    let msg = RendezvousIn::PunchHoleRequest { id: "460351640".to_string() };
    let step = handshake_step(Side::Active, &r, &addr("1.1.1.1", 1), &msg);
    match step.reply {
        Some(RendezvousOut::PunchHoleOffline { relay_server }) => {
            assert_eq!(relay_server, "39.107.33.253:21116")
        }
        other => panic!("unexpected reply {:?}", other),
    }
    assert!(step.done);
    assert!(step.event.is_none());
    // The passive port ignores hole punching.
    let step = handshake_step(Side::Passive, &r, &addr("1.1.1.1", 1), &msg);
    assert!(step.reply.is_none() && !step.done);
}

#[test]
fn punch_hole_to_online_peer() {
    let mut r = Registry::new();
    r.register_peer_at("460351640".to_string(), addr("10.0.0.5", 21000), 30_000);
    let msg = RendezvousIn::PunchHoleRequest { id: "460351640".to_string() };
    let step = handshake_step(Side::Active, &r, &addr("8.8.8.8", 555), &msg);
    match step.reply {
        Some(RendezvousOut::PunchHoleReady { socket_addr, relay_server }) => {
            assert_eq!(socket_addr.ip, "8.8.8.8");
            assert_eq!(socket_addr.port, 555);
            assert_eq!(relay_server, "39.107.33.253:21116");
        }
        other => panic!("unexpected reply {:?}", other),
    }
    match step.event {
        Some(Event::First(id, a)) => {
            assert_eq!(id, "460351640");
            assert_eq!(a.ip, "10.0.0.5");
            assert_eq!(a.port, 21000);
        }
        other => panic!("unexpected event {:?}", other),
    }
    assert!(step.stop_if_reply_fails && !step.done);
}

#[test]
fn local_address_triggers_second_step() {
    let mut r = Registry::new();
    let msg = RendezvousIn::LocalAddr { id: "9".to_string() };
    let step = handshake_step(Side::Passive, &r, &addr("1.1.1.1", 1), &msg);
    assert!(step.event.is_none() && step.reply.is_none() && !step.done);
    r.register_peer_at("9".to_string(), addr("10.0.0.9", 9), 30_000);
    let step = handshake_step(Side::Passive, &r, &addr("1.1.1.1", 1), &msg);
    match step.event {
        Some(Event::Second(id, a)) => {
            assert_eq!(id, "9");
            assert_eq!(a.ip, "10.0.0.9");
        }
        other => panic!("unexpected event {:?}", other),
    }
    let step = handshake_step(Side::Active, &r, &addr("1.1.1.1", 1), &msg);
    assert!(step.event.is_none());
}

#[test]
fn other_messages_are_ignored() {
    let r = Registry::new();
    let step = handshake_step(Side::Active, &r, &addr("1.1.1.1", 1), &RendezvousIn::RegisterPk);
    assert!(step.reply.is_none() && step.event.is_none() && !step.done);
}

#[test]
fn relay_sessions_find_each_other() {
    let mut s = Shared::new();
    let a = addr("10.0.0.1", 1000);
    let b = addr("10.0.0.2", 2000);
    assert!(!s.handshake_done(&a));
    assert_eq!(s.partner_channel(Side::Passive, &a), Err(PairingError::NotFound));
    s.record_relay_request(Side::Passive, "42".to_string(), a.clone(), 7);
    assert!(s.handshake_done(&a));
    assert_eq!(s.partner_channel(Side::Passive, &a), Err(PairingError::NotFound));
    s.record_relay_request(Side::Active, "42".to_string(), b.clone(), 9);
    assert_eq!(s.partner_channel(Side::Passive, &a), Ok(Some(9)));
    assert_eq!(s.partner_channel(Side::Active, &b), Ok(Some(7)));
    assert!(s.handshake_done(&b));
}

#[test]
fn relay_sessions_find_each_other_active_first() {
    let mut s = Shared::new();
    let a = addr("10.0.0.1", 1000);
    let b = addr("10.0.0.2", 2000);
    s.record_relay_request(Side::Active, "42".to_string(), b.clone(), 9);
    assert_eq!(s.partner_channel(Side::Active, &b), Err(PairingError::NotFound));
    s.record_relay_request(Side::Passive, "42".to_string(), a.clone(), 7);
    assert_eq!(s.partner_channel(Side::Active, &b), Ok(Some(7)));
    assert_eq!(s.partner_channel(Side::Passive, &a), Ok(Some(9)));
}

#[test]
fn unknown_address_pairs_under_empty_id() {
    let mut s = Shared::new();
    s.record_relay_request(Side::Active, "".to_string(), addr("10.0.0.2", 2000), 9);
    // No passive session registered from this address: the empty id is used.
    assert_eq!(s.partner_channel(Side::Passive, &addr("10.0.0.3", 1)), Ok(Some(9)));
}

#[test]
fn partner_delivery_rules() {
    assert_eq!(from_partner(Side::Passive, PeerMessageKind::CmdAction), Delivery::Pass { stop_if_send_fails: false });
    assert_eq!(from_partner(Side::Passive, PeerMessageKind::VideoFrame), Delivery::Pass { stop_if_send_fails: true });
    assert_eq!(from_partner(Side::Passive, PeerMessageKind::MouseEvent), Delivery::Pass { stop_if_send_fails: false });
    assert_eq!(from_partner(Side::Passive, PeerMessageKind::Hash), Delivery::Drop);
    assert_eq!(from_partner(Side::Passive, PeerMessageKind::SignedId), Delivery::Drop);
    assert_eq!(from_partner(Side::Active, PeerMessageKind::CmdAction), Delivery::AnswerCommand);
    assert_eq!(from_partner(Side::Active, PeerMessageKind::Hash), Delivery::Pass { stop_if_send_fails: false });
    assert_eq!(from_partner(Side::Active, PeerMessageKind::KeyEvent), Delivery::Drop);
    assert_eq!(from_partner(Side::Active, PeerMessageKind::Other), Delivery::Drop);
}

#[test]
fn stream_delivery_rules() {
    assert_eq!(from_stream(Side::Passive, PeerMessageKind::Hash), Delivery::Pass { stop_if_send_fails: false });
    assert_eq!(from_stream(Side::Passive, PeerMessageKind::SignedId), Delivery::Pass { stop_if_send_fails: true });
    assert_eq!(from_stream(Side::Passive, PeerMessageKind::Other), Delivery::Drop);
    assert_eq!(from_stream(Side::Active, PeerMessageKind::Hash), Delivery::Drop);
    assert_eq!(from_stream(Side::Active, PeerMessageKind::KeyEvent), Delivery::Pass { stop_if_send_fails: false });
}

#[test]
fn delivered_kinds_are_sent_by_other_side() {
    let all = [
        PeerMessageKind::Hash, PeerMessageKind::CmdAction, PeerMessageKind::SignedId, PeerMessageKind::PublicKey, PeerMessageKind::TestDelay, PeerMessageKind::VideoFrame, PeerMessageKind::LoginRequest, PeerMessageKind::LoginResponse,
        PeerMessageKind::MouseEvent, PeerMessageKind::AudioFrame, PeerMessageKind::CursorData, PeerMessageKind::CursorPosition, PeerMessageKind::CursorId, PeerMessageKind::KeyEvent, PeerMessageKind::Clipboard,
        PeerMessageKind::FileAction, PeerMessageKind::FileResponse, PeerMessageKind::Misc, PeerMessageKind::Other,
    ];
    for k in all {
        if from_partner(Side::Active, k) != Delivery::Drop {
            assert!(matches!(from_stream(Side::Passive, k), Delivery::Pass { .. }));
        }
        if from_partner(Side::Passive, k) != Delivery::Drop {
            assert!(matches!(from_stream(Side::Active, k), Delivery::Pass { .. }));
        }
    }
}

#[test]
fn session_phases_in_order() {
    let p = next_phase(Phase::Handshake, SessionEvent::Opened { handshake_done_before: false });
    assert_eq!(p, Phase::Handshake);
    let p = next_phase(p, SessionEvent::HandshakeContinues);
    assert_eq!(p, Phase::Handshake);
    let p = next_phase(p, SessionEvent::SendFailed { stop: false });
    assert_eq!(p, Phase::Handshake);
    let p = next_phase(p, SessionEvent::HandshakeEnded);
    assert_eq!(p, Phase::Pairing);
    let p = next_phase(p, SessionEvent::PartnerSearched { found: true });
    assert_eq!(p, Phase::Relaying);
    let p = next_phase(p, SessionEvent::MessageHandled);
    assert_eq!(p, Phase::Relaying);
    let p = next_phase(p, SessionEvent::IdleTimeout);
    assert_eq!(p, Phase::Closed { failed: false });
    assert_eq!(next_phase(p, SessionEvent::PartnerSearched { found: true }), Phase::Closed { failed: false });
}

#[test]
fn session_skips_handshake_and_fails_without_partner() {
    let p = next_phase(Phase::Handshake, SessionEvent::Opened { handshake_done_before: true });
    assert_eq!(p, Phase::Pairing);
    assert_eq!(next_phase(p, SessionEvent::PartnerSearched { found: false }), Phase::Closed { failed: true });
    assert_eq!(next_phase(Phase::Relaying, SessionEvent::SendFailed { stop: true }), Phase::Closed { failed: true });
    assert_eq!(next_phase(Phase::Relaying, SessionEvent::StreamEnded), Phase::Closed { failed: false });
    // Relaying is reached only from pairing with a partner.
    assert_eq!(next_phase(Phase::Handshake, SessionEvent::PartnerSearched { found: true }), Phase::Handshake);
}
