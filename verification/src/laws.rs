//! Properties that span several operations of the server.
use vstd::prelude::*;

use crate::clock::{spec_millis_of, spec_timestamp_of};
use crate::consumer::{pair_rule, ChannelError, ChannelsView};
use crate::protocol::{spec_relay_server, Event, RendezvousIn, RendezvousOut};
use crate::registry::{
    after_heartbeat, fresh_only, heartbeat_entry, spec_heartbeat_limit_ms, udp_outcome,
    ClientView, RegistryView,
};
use crate::session::{
    after_relay_request, handshake_rule, key_choice, own_ids, pairing_outcome, spec_from_partner,
    spec_from_stream, spec_next_phase, Delivery, HandshakeStep, PairingError, PeerMessageKind,
    Phase, SessionEvent, SharedView, Side,
};

verus! {

/// For one reading of the clock after the epoch and within chrono's range,
/// the system-clock timestamp (`get_time`'s count) is the whole milliseconds
/// since the epoch, and so is chrono's count (`now`'s count):
/// `utc_timestamp_of` gives `spec_timestamp_of` of the same reading there.
pub proof fn lemma_clock_counts_agree(secs: u64, nanos: u32)
    requires
        nanos < 1_000_000_000,
        secs <= 8_000_000_000_000,
    ensures
        spec_timestamp_of(Some((secs, nanos))) == spec_millis_of(secs, nanos),
{
}

/// Once a peer has sent a heartbeat, a request to punch a hole to it is
/// answered with the requester's address rather than with "offline", and the
/// UDP side is told the peer's address.
pub proof fn lemma_registered_peer_is_reachable(
    before: RegistryView,
    id: String,
    addr: (Seq<char>, u16, u32, u32),
    now: u64,
    requester: (Seq<char>, u16, u32, u32),
    step: HandshakeStep,
)
    requires
        handshake_rule(
            Side::Active,
            after_heartbeat(before, id@, addr, now).ids,
            requester,
            RendezvousIn::PunchHoleRequest { id },
            step,
        ),
    ensures
        step.reply matches Some(RendezvousOut::PunchHoleReady { socket_addr: s, relay_server: _ })
            && s@ == requester,
        step.event matches Some(Event::First(i, a)) && i@ == id@ && a@ == addr,
        !step.done,
{
    assert(after_heartbeat(before, id@, addr, now).ids.contains_key(id@));
}

/// A peer that has sent a heartbeat is not asked for its public key again on
/// its next heartbeat.
pub proof fn lemma_known_peer_keeps_key(
    before: RegistryView,
    id: String,
    addr: (Seq<char>, u16, u32, u32),
    now: u64,
    next: RendezvousIn,
    next_addr: (Seq<char>, u16, u32, u32),
    next_now: u64,
    after: RegistryView,
    reply: Option<RendezvousOut>,
)
    requires
        next matches RendezvousIn::RegisterPeer { id: i } && i@ == id@,
        udp_outcome(after_heartbeat(before, id@, addr, now), next, next_addr, next_now, after, reply),
    ensures
        reply matches Some(RendezvousOut::RegisterPeerResponse { request_pk }) && !request_pk,
{
    assert(after_heartbeat(before, id@, addr, now).ids.contains_key(id@));
}

/// A heartbeat keeps the pairing recorded for the peer's IP address.
pub proof fn lemma_heartbeat_keeps_pairing(
    before: RegistryView,
    id: Seq<char>,
    addr: (Seq<char>, u16, u32, u32),
    now: u64,
)
    requires
        before.ips.contains_key(addr.0),
    ensures
        after_heartbeat(before, id, addr, now).ips[addr.0].peer_ip == before.ips[addr.0].peer_ip,
        after_heartbeat(before, id, addr, now).ips[addr.0].uuid == id,
{
}

/// A peer heard from less than the heartbeat limit before a sweep stays
/// registered, with its entry unchanged.
pub proof fn lemma_live_peer_survives_sweep(
    before: RegistryView,
    id: Seq<char>,
    addr: (Seq<char>, u16, u32, u32),
    heard: u64,
    now: u64,
)
    requires
        now >= spec_heartbeat_limit_ms(),
        now - spec_heartbeat_limit_ms() < heard,
    ensures
        fresh_only(
            after_heartbeat(before, id, addr, heard).ids,
            (now - spec_heartbeat_limit_ms()) as u64,
        ).contains_key(id),
        fresh_only(
            after_heartbeat(before, id, addr, heard).ids,
            (now - spec_heartbeat_limit_ms()) as u64,
        )[id] == heartbeat_entry(addr, heard),
{
}

/// A sweep leaves only peers heard from after its cutoff, keeps every such
/// peer, and a second sweep at the same cutoff changes nothing.
pub proof fn lemma_sweep_is_exact(ids: Map<Seq<char>, ClientView>, cutoff: u64)
    ensures
        forall|k: Seq<char>| #[trigger]
            fresh_only(ids, cutoff).contains_key(k) <==> (ids.contains_key(k) && ids[k].timestamp
                > cutoff),
        forall|k: Seq<char>| #[trigger]
            fresh_only(ids, cutoff).contains_key(k) ==> fresh_only(ids, cutoff)[k] == ids[k],
        fresh_only(fresh_only(ids, cutoff), cutoff) == fresh_only(ids, cutoff),
{
    assert(fresh_only(fresh_only(ids, cutoff), cutoff) =~= fresh_only(ids, cutoff));
}

/// A peer swept out for silence is asked for its public key again on its
/// next heartbeat, as a peer never seen before is.
pub proof fn lemma_swept_peer_registers_anew(
    before: RegistryView,
    cutoff: u64,
    msg: RendezvousIn,
    addr: (Seq<char>, u16, u32, u32),
    now: u64,
    after: RegistryView,
    reply: Option<RendezvousOut>,
)
    requires
        msg matches RendezvousIn::RegisterPeer { id } && (!before.ids.contains_key(id@)
            || before.ids[id@].timestamp <= cutoff),
        udp_outcome(
            RegistryView { ids: fresh_only(before.ids, cutoff), ips: before.ips },
            msg,
            addr,
            now,
            after,
            reply,
        ),
    ensures
        reply matches Some(RendezvousOut::RegisterPeerResponse { request_pk }) && request_pk,
{
}

/// Once a session has asked for a relay, a later session from the same
/// address skips the handshake.
pub proof fn lemma_relay_request_ends_handshakes(
    s: SharedView,
    side: Side,
    id: Seq<char>,
    addr: (Seq<char>, u16, u32, u32),
    channel: u64,
)
    ensures
        after_relay_request(s, side, id, addr, channel).status.contains_key(addr),
{
}

/// The two sessions that asked for a relay under the same peer id find each
/// other, in whichever order they asked: the passive session gets the active
/// session's channel and the active session gets the passive one's. Each
/// address must be the only one registered for its side under another id.
pub proof fn lemma_relay_pairs_sessions(
    s: SharedView,
    id: Seq<char>,
    passive_addr: (Seq<char>, u16, u32, u32),
    passive_channel: u64,
    active_addr: (Seq<char>, u16, u32, u32),
    active_channel: u64,
    both: SharedView,
)
    requires
        forall|k: Seq<char>| #[trigger]
            s.kv17.contains_key(k) && k != id ==> s.kv17[k] != passive_addr,
        forall|k: Seq<char>| #[trigger]
            s.kv16.contains_key(k) && k != id ==> s.kv16[k] != active_addr,
        both == after_relay_request(
            after_relay_request(s, Side::Passive, id, passive_addr, passive_channel),
            Side::Active,
            id,
            active_addr,
            active_channel,
        ) || both == after_relay_request(
            after_relay_request(s, Side::Active, id, active_addr, active_channel),
            Side::Passive,
            id,
            passive_addr,
            passive_channel,
        ),
    ensures
        forall|key: Seq<char>| #[trigger]
            key_choice(own_ids(both, Side::Passive), passive_addr, key) ==> pairing_outcome(
                both,
                Side::Passive,
                key,
            ) == Ok::<Option<u64>, PairingError>(Some(active_channel)),
        forall|key: Seq<char>| #[trigger]
            key_choice(own_ids(both, Side::Active), active_addr, key) ==> pairing_outcome(
                both,
                Side::Active,
                key,
            ) == Ok::<Option<u64>, PairingError>(Some(passive_channel)),
{
    assert(both.kv17 == s.kv17.insert(id, passive_addr));
    assert(both.kv16 == s.kv16.insert(id, active_addr));
    assert(both.receivers_16 == s.receivers_16.insert(passive_addr, passive_channel));
    assert(both.receivers_17 == s.receivers_17.insert(active_addr, active_channel));
    assert forall|key: Seq<char>| #[trigger]
        key_choice(own_ids(both, Side::Passive), passive_addr, key) implies pairing_outcome(
        both,
        Side::Passive,
        key,
    ) == Ok::<Option<u64>, PairingError>(Some(active_channel)) by {
        assert(both.kv17.contains_key(id) && both.kv17[id] == passive_addr);
        if key != id {
            assert(both.kv17[key] == s.kv17[key]);
        }
        assert(key == id);
    }
    assert forall|key: Seq<char>| #[trigger]
        key_choice(own_ids(both, Side::Active), active_addr, key) implies pairing_outcome(
        both,
        Side::Active,
        key,
    ) == Ok::<Option<u64>, PairingError>(Some(passive_channel)) by {
        assert(both.kv16.contains_key(id) && both.kv16[id] == active_addr);
        if key != id {
            assert(both.kv16[key] == s.kv16[key]);
        }
        assert(key == id);
    }
}

/// A closed session stays closed, with the same outcome, whatever happens.
pub proof fn lemma_closed_session_stays_closed(failed: bool, event: SessionEvent)
    ensures
        spec_next_phase(Phase::Closed { failed }, event) == (Phase::Closed { failed }),
{
}

/// A session relays only after the search for its partner found the
/// partner's peer id.
pub proof fn lemma_relay_needs_partner(phase: Phase, event: SessionEvent)
    ensures
        spec_next_phase(phase, event) == Phase::Relaying ==> phase == Phase::Relaying || (phase
            == Phase::Pairing && event == (SessionEvent::PartnerSearched { found: true })),
{
}

/// Every kind of message that a session writes to its stream when its
/// partner sends it is a kind that the partner's side passes on from its own
/// stream.
pub proof fn lemma_relay_kinds_agree(kind: PeerMessageKind)
    ensures
        spec_from_partner(Side::Active, kind) != Delivery::Drop ==> spec_from_stream(
            Side::Passive,
            kind,
        ) is Pass,
        spec_from_partner(Side::Passive, kind) != Delivery::Drop ==> spec_from_stream(
            Side::Active,
            kind,
        ) is Pass,
{
}

/// What an active (controlling) session does with each kind of message
/// its partner relays: the screen, sound, cursor, clipboard, file answers,
/// login answers, delay probes, hashes and other notices are written to its
/// stream, and nothing stops the session where that write fails; a command is
/// answered with a command response; signed ids, public keys, login requests,
/// mouse and key events, file actions and unknown messages are left.
pub proof fn lemma_active_partner_deliveries(kind: PeerMessageKind)
    ensures
        kind == PeerMessageKind::Hash || kind == PeerMessageKind::TestDelay || kind
            == PeerMessageKind::VideoFrame || kind == PeerMessageKind::LoginResponse || kind
            == PeerMessageKind::CursorData || kind == PeerMessageKind::CursorId || kind
            == PeerMessageKind::CursorPosition || kind == PeerMessageKind::Clipboard || kind
            == PeerMessageKind::FileResponse || kind == PeerMessageKind::Misc || kind
            == PeerMessageKind::AudioFrame ==> spec_from_partner(Side::Active, kind)
            == (Delivery::Pass { stop_if_send_fails: false }),
        kind == PeerMessageKind::CmdAction ==> spec_from_partner(Side::Active, kind)
            == Delivery::AnswerCommand,
        kind == PeerMessageKind::SignedId || kind == PeerMessageKind::PublicKey || kind
            == PeerMessageKind::LoginRequest || kind == PeerMessageKind::MouseEvent || kind
            == PeerMessageKind::KeyEvent || kind == PeerMessageKind::FileAction || kind
            == PeerMessageKind::Other ==> spec_from_partner(Side::Active, kind) == Delivery::Drop,
{
}

/// What a passive (controlled) session does with each kind of message its
/// partner relays: commands, login requests, file actions, key and mouse
/// events are written to its stream whatever that write gives; delay probes,
/// the screen, login answers, cursor, clipboard, file answers, other notices
/// and sound are written too, and the session ends where such a write fails;
/// hashes, signed ids, public keys and unknown messages are left.
pub proof fn lemma_passive_partner_deliveries(kind: PeerMessageKind)
    ensures
        kind == PeerMessageKind::CmdAction || kind == PeerMessageKind::LoginRequest || kind
            == PeerMessageKind::FileAction || kind == PeerMessageKind::KeyEvent || kind
            == PeerMessageKind::MouseEvent ==> spec_from_partner(Side::Passive, kind)
            == (Delivery::Pass { stop_if_send_fails: false }),
        kind == PeerMessageKind::TestDelay || kind == PeerMessageKind::VideoFrame || kind
            == PeerMessageKind::LoginResponse || kind == PeerMessageKind::CursorData || kind
            == PeerMessageKind::CursorId || kind == PeerMessageKind::CursorPosition || kind
            == PeerMessageKind::Clipboard || kind == PeerMessageKind::FileResponse || kind
            == PeerMessageKind::Misc || kind == PeerMessageKind::AudioFrame ==> spec_from_partner(
            Side::Passive,
            kind,
        ) == (Delivery::Pass { stop_if_send_fails: true }),
        kind == PeerMessageKind::Hash || kind == PeerMessageKind::SignedId || kind
            == PeerMessageKind::PublicKey || kind == PeerMessageKind::Other ==> spec_from_partner(
            Side::Passive,
            kind,
        ) == Delivery::Drop,
{
}

/// What a session does with each kind of message read from its own stream:
/// the passive session passes every known kind to its partner, ending where
/// that fails except for a hash; the active session passes every known kind
/// but a hash, whatever the send gives; unknown messages are left on both
/// sides, and a command is never answered from the stream.
pub proof fn lemma_stream_deliveries(kind: PeerMessageKind)
    ensures
        kind == PeerMessageKind::Other ==> spec_from_stream(Side::Passive, kind) == Delivery::Drop
            && spec_from_stream(Side::Active, kind) == Delivery::Drop,
        kind == PeerMessageKind::Hash ==> spec_from_stream(Side::Passive, kind) == (Delivery::Pass {
            stop_if_send_fails: false,
        }) && spec_from_stream(Side::Active, kind) == Delivery::Drop,
        kind != PeerMessageKind::Other && kind != PeerMessageKind::Hash ==> spec_from_stream(
            Side::Passive,
            kind,
        ) == (Delivery::Pass { stop_if_send_fails: true }) && spec_from_stream(Side::Active, kind)
            == (Delivery::Pass { stop_if_send_fails: false }),
{
}

/// On either port, a NAT test during the handshake is answered with a NAT
/// test response, nothing else happens, and the handshake goes on; a relay
/// response is answered with the relay server's address and the handshake
/// goes on; a relay request is answered with its uuid, registers the session
/// under the requested id, and ends the handshake.
pub proof fn lemma_handshake_on_both_ports(
    side: Side,
    ids: Map<Seq<char>, ClientView>,
    addr: (Seq<char>, u16, u32, u32),
    msg: RendezvousIn,
    step: HandshakeStep,
)
    requires
        handshake_rule(side, ids, addr, msg, step),
    ensures
        msg is TestNatRequest ==> step.reply == Some(RendezvousOut::TestNatResponse)
            && step.event is None && step.relay_id is None && !step.done,
        msg is RelayResponse ==> (step.reply matches Some(
            RendezvousOut::RelayServer { relay_server: r },
        ) && r@ == spec_relay_server()) && step.event is None && step.relay_id is None
            && !step.done,
        msg matches RendezvousIn::RequestRelay { id, uuid } ==> (step.reply matches Some(
            RendezvousOut::RelayAccepted { uuid: u },
        ) && u@ == uuid@) && (step.relay_id matches Some(i) && i@ == id@) && step.event is None
            && step.done,
{
}

/// A send that fails where the message's rule says not to stop leaves the
/// session where it was, in every phase; a handled message leaves it there
/// too; and a failed send whose rule says to stop ends any open session with
/// an error.
pub proof fn lemma_phases_on_sends(phase: Phase)
    ensures
        spec_next_phase(phase, SessionEvent::SendFailed { stop: false }) == phase,
        spec_next_phase(phase, SessionEvent::MessageHandled) == phase,
        spec_next_phase(phase, SessionEvent::HandshakeContinues) == phase,
        !(phase is Closed) ==> spec_next_phase(phase, SessionEvent::SendFailed { stop: true })
            == (Phase::Closed { failed: true }),
{
}

/// The consumer gets a pair of channels only where both producers left one,
/// and then the one under `"B"` first and the one under `"A"` second; where
/// `"B"` is missing the error names it, and where only `"A"` is missing the
/// error names that.
pub proof fn lemma_channel_pair(s: ChannelsView)
    ensures
        pair_rule(s) is Ok <==> s.receivers_18.contains_key("B"@) && s.receivers_19.contains_key(
            "A"@,
        ),
        pair_rule(s) is Ok ==> pair_rule(s).unwrap().0 == s.receivers_18["B"@] && pair_rule(
            s,
        ).unwrap().1 == s.receivers_19["A"@],
        !s.receivers_18.contains_key("B"@) ==> pair_rule(s) == Err::<(u64, u64), ChannelError>(
            ChannelError::None1,
        ),
        s.receivers_18.contains_key("B"@) && !s.receivers_19.contains_key("A"@) ==> pair_rule(s)
            == Err::<(u64, u64), ChannelError>(ChannelError::None2),
{
}

} // verus!
