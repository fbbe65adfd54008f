//! A TCP session of the rendezvous server, as decisions taken on events.
//!
//! The server listens on two ports. The controlling side connects to the
//! active port, the controlled side to the passive port. A session first runs
//! a handshake of rendezvous messages; a side that asks for a relay registers
//! its outgoing channel under the peer id it asks for. After a short pause the
//! session looks for the partner that asked for a relay under the same id,
//! and then relays messages between its stream and the partner's channel
//! until either goes quiet.
use vstd::prelude::*;

use crate::addr::PeerAddr;
use crate::protocol::{
    relay_server, rendezvous_server, spec_relay_server, spec_rendezvous_server, Event,
    RendezvousIn, RendezvousOut,
};
use crate::registry::{ClientView, Registry};
use crate::table::{Keyed, Table};

verus! {

/// The port a session arrived on.
#[derive(Debug, Clone, Copy, PartialEq, Eq, Structural)]
pub enum Side {
    /// The relay port, where the controlled side connects.
    Passive,
    /// The rendezvous port, where the controlling side connects.
    Active,
}

/// How long the handshake waits for the next message, in milliseconds.
pub open spec fn spec_handshake_timeout_ms(side: Side) -> u64 {
    match side {
        Side::Passive => 3000,
        Side::Active => 30000,
    }
}

/// How long the handshake waits for the next message, in milliseconds.
pub fn handshake_timeout_ms(side: Side) -> (r: u64)
    ensures
        r == spec_handshake_timeout_ms(side),
{
    match side {
        Side::Passive => 3000,
        Side::Active => 30000,
    }
}

/// How long the relay waits for the next message from its own stream, in
/// milliseconds.
pub open spec fn spec_relay_timeout_ms(side: Side) -> u64 {
    match side {
        Side::Passive => 30000,
        Side::Active => 3000,
    }
}

/// How long the relay waits for the next message from its own stream, in
/// milliseconds.
pub fn relay_timeout_ms(side: Side) -> (r: u64)
    ensures
        r == spec_relay_timeout_ms(side),
{
    match side {
        Side::Passive => 30000,
        Side::Active => 3000,
    }
}

/// After this many seconds without any message the relay ends.
pub fn relay_idle_limit_secs() -> (r: u64)
    ensures
        r == 5,
{
    5
}

/// The pause between the end of the handshake and the search for the
/// partner, in seconds.
pub fn pairing_delay_secs() -> (r: u64)
    ensures
        r == 2,
{
    2
}

/// Where a session stands.
#[derive(Debug, Clone, Copy, PartialEq, Eq, Structural)]
pub enum Phase {
    /// Reading rendezvous messages.
    Handshake,
    /// Waiting out the pause, then looking for the partner.
    Pairing,
    /// Passing messages between the stream and the partner.
    Relaying,
    /// Over; `failed` where the session ends with an error.
    Closed { failed: bool },
}

/// What happened to a session.
#[derive(Debug, Clone, Copy, PartialEq, Eq, Structural)]
pub enum SessionEvent {
    /// The connection was accepted (the session starts in `Handshake`); its
    /// address finished a handshake before or not.
    Opened { handshake_done_before: bool },
    /// A handshake message was handled and the handshake goes on.
    HandshakeContinues,
    /// The handshake step said it is over, or no message came in time.
    HandshakeEnded,
    /// Sending failed, and the rule for that message says whether to stop.
    SendFailed { stop: bool },
    /// The search for the partner ended, with or without a partner id.
    PartnerSearched { found: bool },
    /// A message was relayed (or left) and the relay goes on.
    MessageHandled,
    /// The stream was closed, or failed, or was silent for its timeout.
    StreamEnded,
    /// No message at all came for the idle limit.
    IdleTimeout,
}

/// The phase that `event` leads to from `phase`.
pub open spec fn spec_next_phase(phase: Phase, event: SessionEvent) -> Phase {
    match (phase, event) {
        (Phase::Closed { failed }, _) => Phase::Closed { failed },
        (_, SessionEvent::SendFailed { stop: true }) => Phase::Closed { failed: true },
        (Phase::Handshake, SessionEvent::Opened { handshake_done_before }) => if handshake_done_before {
            Phase::Pairing
        } else {
            Phase::Handshake
        },
        (Phase::Handshake, SessionEvent::HandshakeEnded) => Phase::Pairing,
        (Phase::Pairing, SessionEvent::PartnerSearched { found }) => if found {
            Phase::Relaying
        } else {
            Phase::Closed { failed: true }
        },
        (Phase::Relaying, SessionEvent::StreamEnded) => Phase::Closed { failed: false },
        (Phase::Relaying, SessionEvent::IdleTimeout) => Phase::Closed { failed: false },
        _ => phase,
    }
}

/// The phase that `event` leads to from `phase`.
pub fn next_phase(phase: Phase, event: SessionEvent) -> (next: Phase)
    ensures
        next == spec_next_phase(phase, event),
{
    match (phase, event) {
        (Phase::Closed { failed }, _) => Phase::Closed { failed },
        (_, SessionEvent::SendFailed { stop: true }) => Phase::Closed { failed: true },
        (Phase::Handshake, SessionEvent::Opened { handshake_done_before }) => if handshake_done_before {
            Phase::Pairing
        } else {
            Phase::Handshake
        },
        (Phase::Handshake, SessionEvent::HandshakeEnded) => Phase::Pairing,
        (Phase::Pairing, SessionEvent::PartnerSearched { found }) => if found {
            Phase::Relaying
        } else {
            Phase::Closed { failed: true }
        },
        (Phase::Relaying, SessionEvent::StreamEnded) => Phase::Closed { failed: false },
        (Phase::Relaying, SessionEvent::IdleTimeout) => Phase::Closed { failed: false },
        _ => phase,
    }
}

/// What a session does with one handshake message.
#[derive(Debug)]
pub struct HandshakeStep {
    /// The message to send back on the stream, if any.
    pub reply: Option<RendezvousOut>,
    /// Whether the session ends where sending the reply fails.
    pub stop_if_reply_fails: bool,
    /// The notice to pass to the UDP side after the reply, if any.
    pub event: Option<Event>,
    /// The peer id under which to register this session's channel, once the
    /// reply has gone out.
    pub relay_id: Option<String>,
    /// Whether the handshake is over.
    pub done: bool,
}

/// A step that sends `reply` and goes on with the handshake.
pub open spec fn answers(step: HandshakeStep, reply: RendezvousOut) -> bool {
    &&& step.reply == Some(reply)
    &&& !step.stop_if_reply_fails
    &&& step.event is None
    &&& step.relay_id is None
    &&& !step.done
}

/// A step that does nothing and goes on with the handshake.
pub open spec fn ignores(step: HandshakeStep) -> bool {
    &&& step.reply is None
    &&& step.event is None
    &&& step.relay_id is None
    &&& !step.done
}

/// A step that accepts a relay request for peer `id` with `uuid`: it echoes
/// the uuid, ends the session where that fails, registers the channel under
/// `id`, and ends the handshake.
pub open spec fn accepts_relay(step: HandshakeStep, id: Seq<char>, uuid: Seq<char>) -> bool {
    &&& step.reply matches Some(RendezvousOut::RelayAccepted { uuid: u }) && u@ == uuid
    &&& step.stop_if_reply_fails
    &&& step.event is None
    &&& step.relay_id matches Some(i) && i@ == id
    &&& step.done
}

/// The handshake rule: what a session on `side` from `addr` does with `msg`,
/// given the peers registered by id.
pub open spec fn handshake_rule(
    side: Side,
    ids: Map<Seq<char>, ClientView>,
    addr: (Seq<char>, u16, u32, u32),
    msg: RendezvousIn,
    step: HandshakeStep,
) -> bool {
    match msg {
        RendezvousIn::RelayResponse => {
            &&& step.reply matches Some(RendezvousOut::RelayServer { relay_server: r })
                && r@ == spec_relay_server()
            &&& !step.stop_if_reply_fails
            &&& step.event is None
            &&& step.relay_id is None
            &&& !step.done
        },
        RendezvousIn::TestNatRequest => answers(step, RendezvousOut::TestNatResponse),
        RendezvousIn::RequestRelay { id, uuid } => accepts_relay(step, id@, uuid@),
        RendezvousIn::LocalAddr { id } => match side {
            Side::Passive => {
                &&& step.reply is None
                &&& step.relay_id is None
                &&& !step.done
                &&& if ids.contains_key(id@) {
                    step.event matches Some(Event::Second(i, a)) && i@ == id@ && a@
                        == ids[id@].local_addr
                } else {
                    step.event is None
                }
            },
            Side::Active => ignores(step),
        },
        RendezvousIn::PunchHoleRequest { id } => match side {
            Side::Passive => ignores(step),
            Side::Active => if ids.contains_key(id@) {
                &&& step.reply matches Some(
                    RendezvousOut::PunchHoleReady { socket_addr: s, relay_server: r },
                ) && s@ == addr && r@ == spec_rendezvous_server()
                &&& step.stop_if_reply_fails
                &&& step.event matches Some(Event::First(i, a)) && i@ == id@ && a@
                    == ids[id@].local_addr
                &&& step.relay_id is None
                &&& !step.done
            } else {
                &&& step.reply matches Some(RendezvousOut::PunchHoleOffline { relay_server: r })
                    && r@ == spec_rendezvous_server()
                &&& !step.stop_if_reply_fails
                &&& step.event is None
                &&& step.relay_id is None
                &&& step.done
            },
        },
        _ => ignores(step),
    }
}

fn step_answer(reply: RendezvousOut) -> (step: HandshakeStep)
    ensures
        answers(step, reply),
{
    HandshakeStep {
        reply: Some(reply),
        stop_if_reply_fails: false,
        event: None,
        relay_id: None,
        done: false,
    }
}

fn step_ignore() -> (step: HandshakeStep)
    ensures
        ignores(step),
{
    HandshakeStep { reply: None, stop_if_reply_fails: false, event: None, relay_id: None, done: false }
}

/// What a session on `side` from `addr` does with the handshake message
/// `msg`, given the peers in `registry`.
pub fn handshake_step(side: Side, registry: &Registry, addr: &PeerAddr, msg: &RendezvousIn) -> (step:
    HandshakeStep)
    ensures
        handshake_rule(side, registry@.ids, addr@, *msg, step),
{
    match msg {
        RendezvousIn::RelayResponse => {
            HandshakeStep {
                reply: Some(RendezvousOut::RelayServer { relay_server: relay_server() }),
                stop_if_reply_fails: false,
                event: None,
                relay_id: None,
                done: false,
            }
        },
        RendezvousIn::TestNatRequest => step_answer(RendezvousOut::TestNatResponse),
        RendezvousIn::RequestRelay { id, uuid } => {
            HandshakeStep {
                reply: Some(RendezvousOut::RelayAccepted { uuid: uuid.clone() }),
                stop_if_reply_fails: true,
                event: None,
                relay_id: Some(id.clone()),
                done: true,
            }
        },
        RendezvousIn::LocalAddr { id } => match side {
            Side::Passive => {
                let event = match registry.lookup_id(id) {
                    Some(c) => Some(Event::Second(id.clone(), c.local_addr)),
                    None => None,
                };
                HandshakeStep {
                    reply: None,
                    stop_if_reply_fails: false,
                    event,
                    relay_id: None,
                    done: false,
                }
            },
            Side::Active => step_ignore(),
        },
        RendezvousIn::PunchHoleRequest { id } => match side {
            Side::Passive => step_ignore(),
            Side::Active => match registry.lookup_id(id) {
                Some(c) => HandshakeStep {
                    reply: Some(
                        RendezvousOut::PunchHoleReady {
                            socket_addr: addr.duplicate(),
                            relay_server: rendezvous_server(),
                        },
                    ),
                    stop_if_reply_fails: true,
                    event: Some(Event::First(id.clone(), c.local_addr)),
                    relay_id: None,
                    done: false,
                },
                None => HandshakeStep {
                    reply: Some(RendezvousOut::PunchHoleOffline { relay_server: rendezvous_server() }),
                    stop_if_reply_fails: false,
                    event: None,
                    relay_id: None,
                    done: true,
                },
            },
        },
        _ => step_ignore(),
    }
}

/// The partner of a session could not be found.
#[derive(Debug, Clone, Copy, PartialEq, Eq, Structural)]
pub enum PairingError {
    NotFound,
}

/// The tables that the two ports share.
pub struct SharedView {
    /// Channels of passive sessions, by their address.
    pub receivers_16: Map<(Seq<char>, u16, u32, u32), u64>,
    /// Channels of active sessions, by their address.
    pub receivers_17: Map<(Seq<char>, u16, u32, u32), u64>,
    /// Addresses of active sessions, by the peer id they asked for.
    pub kv16: Map<Seq<char>, (Seq<char>, u16, u32, u32)>,
    /// Addresses of passive sessions, by the peer id they asked for.
    pub kv17: Map<Seq<char>, (Seq<char>, u16, u32, u32)>,
    /// Addresses whose handshake is done.
    pub status: Map<(Seq<char>, u16, u32, u32), i8>,
}

/// The shared tables after a session on `side` from `addr` asked for a relay
/// to peer `id`, with its channel `channel`.
pub open spec fn after_relay_request(
    s: SharedView,
    side: Side,
    id: Seq<char>,
    addr: (Seq<char>, u16, u32, u32),
    channel: u64,
) -> SharedView {
    match side {
        Side::Passive => SharedView {
            kv17: s.kv17.insert(id, addr),
            status: s.status.insert(addr, 1),
            receivers_16: s.receivers_16.insert(addr, channel),
            ..s
        },
        Side::Active => SharedView {
            kv16: s.kv16.insert(id, addr),
            receivers_17: s.receivers_17.insert(addr, channel),
            status: s.status.insert(addr, 1),
            ..s
        },
    }
}

/// The table of the session's own side: peer id to address.
pub open spec fn own_ids(s: SharedView, side: Side) -> Map<Seq<char>, (Seq<char>, u16, u32, u32)> {
    match side {
        Side::Passive => s.kv17,
        Side::Active => s.kv16,
    }
}

/// The table of the other side: peer id to address.
pub open spec fn other_ids(s: SharedView, side: Side) -> Map<Seq<char>, (Seq<char>, u16, u32, u32)> {
    match side {
        Side::Passive => s.kv16,
        Side::Active => s.kv17,
    }
}

/// The channels of the other side, by address.
pub open spec fn other_channels(s: SharedView, side: Side) -> Map<(Seq<char>, u16, u32, u32), u64> {
    match side {
        Side::Passive => s.receivers_17,
        Side::Active => s.receivers_16,
    }
}

/// `key` may serve as the session's peer id: it maps to `addr`, or no key
/// does and `key` is empty.
pub open spec fn key_choice(
    own: Map<Seq<char>, (Seq<char>, u16, u32, u32)>,
    addr: (Seq<char>, u16, u32, u32),
    key: Seq<char>,
) -> bool {
    ||| own.contains_key(key) && own[key] == addr
    ||| key == Seq::<char>::empty() && forall|k: Seq<char>| #[trigger]
        own.contains_key(k) ==> own[k] != addr
}

/// What the search for the partner gives with peer id `key`: the partner's
/// channel, if the partner registered one, or an error where no partner
/// asked for `key`.
pub open spec fn pairing_outcome(s: SharedView, side: Side, key: Seq<char>) -> Result<
    Option<u64>,
    PairingError,
> {
    if other_ids(s, side).contains_key(key) {
        Ok(other_channels(s, side).get(other_ids(s, side)[key]))
    } else {
        Err(PairingError::NotFound)
    }
}

/// The tables that the two ports share.
pub struct Shared {
    receivers_16: Table<PeerAddr, u64>,
    receivers_17: Table<PeerAddr, u64>,
    kv16: Table<String, PeerAddr>,
    kv17: Table<String, PeerAddr>,
    status: Table<PeerAddr, i8>,
}

impl View for Shared {
    type V = SharedView;

    closed spec fn view(&self) -> SharedView {
        SharedView {
            receivers_16: self.receivers_16@,
            receivers_17: self.receivers_17@,
            kv16: self.kv16@,
            kv17: self.kv17@,
            status: self.status@,
        }
    }
}

impl Shared {
    /// Empty tables.
    pub fn new() -> (s: Shared)
        ensures
            s@.receivers_16 == Map::<(Seq<char>, u16, u32, u32), u64>::empty(),
            s@.receivers_17 == Map::<(Seq<char>, u16, u32, u32), u64>::empty(),
            s@.kv16 == Map::<Seq<char>, (Seq<char>, u16, u32, u32)>::empty(),
            s@.kv17 == Map::<Seq<char>, (Seq<char>, u16, u32, u32)>::empty(),
            s@.status == Map::<(Seq<char>, u16, u32, u32), i8>::empty(),
    {
        Shared {
            receivers_16: Table::new(),
            receivers_17: Table::new(),
            kv16: Table::new(),
            kv17: Table::new(),
            status: Table::new(),
        }
    }

    /// Whether a session from `addr` finished its handshake before; a new
    /// session from the same address then skips the handshake.
    pub fn handshake_done(&self, addr: &PeerAddr) -> (r: bool)
        ensures
            r == self@.status.contains_key(addr@),
    {
        self.status.contains(addr)
    }

    /// Registers the relay request of a session on `side` from `addr` for peer
    /// `id`, with the channel `channel` on which the session passes on what
    /// its stream sends.
    pub fn record_relay_request(&mut self, side: Side, id: String, addr: PeerAddr, channel: u64)
        ensures
            final(self)@ == after_relay_request(old(self)@, side, id@, addr@, channel),
    {
        match side {
            Side::Passive => {
                self.kv17.insert(id, addr.duplicate());
                self.status.insert(addr.duplicate(), 1);
                self.receivers_16.insert(addr, channel);
            },
            Side::Active => {
                self.kv16.insert(id, addr.duplicate());
                self.receivers_17.insert(addr.duplicate(), channel);
                self.status.insert(addr, 1);
            },
        }
    }

    /// Finds the channel of the partner of the session on `side` from `addr`:
    /// the session's peer id is a key of its own side's table that maps to
    /// `addr` (or the empty id, where none does); the partner is the session
    /// of the other side that asked for the same id.
    pub fn partner_channel(&self, side: Side, addr: &PeerAddr) -> (r: Result<
        Option<u64>,
        PairingError,
    >)
        ensures
            exists|key: Seq<char>|
                #[trigger] key_choice(own_ids(self@, side), addr@, key) && r == pairing_outcome(
                    self@,
                    side,
                    key,
                ),
    {
        let (own, other, channels) = match side {
            Side::Passive => (&self.kv17, &self.kv16, &self.receivers_17),
            Side::Active => (&self.kv16, &self.kv17, &self.receivers_16),
        };
        let key = match own.key_with_value(addr) {
            Some(k) => k,
            None => String::new(),
        };
        assert(key_choice(own_ids(self@, side), addr@, key@));
        match other.get(&key) {
            None => Err(PairingError::NotFound),
            Some(host) => Ok(channels.get(&host)),
        }
    }
}

/// The kinds of peer-to-peer messages that a relay tells apart.
#[derive(Debug, Clone, Copy, PartialEq, Eq, Structural)]
pub enum PeerMessageKind {
    Hash,
    CmdAction,
    SignedId,
    PublicKey,
    TestDelay,
    VideoFrame,
    LoginRequest,
    LoginResponse,
    MouseEvent,
    AudioFrame,
    CursorData,
    CursorPosition,
    CursorId,
    KeyEvent,
    Clipboard,
    FileAction,
    FileResponse,
    Misc,
    /// Any other message.
    Other,
}

/// What a relay does with a message.
#[derive(Debug, Clone, Copy, PartialEq, Eq, Structural)]
pub enum Delivery {
    /// Pass the message on unchanged; where sending fails, end the session
    /// if `stop_if_send_fails`.
    Pass { stop_if_send_fails: bool },
    /// Write a command response carrying the command of the message.
    AnswerCommand,
    /// Leave the message.
    Drop,
}

/// The kinds a passive session writes to its stream when its partner sends them.
pub open spec fn passive_takes(kind: PeerMessageKind) -> bool {
    matches!(kind,
        PeerMessageKind::CmdAction | PeerMessageKind::LoginRequest | PeerMessageKind::TestDelay
        | PeerMessageKind::VideoFrame | PeerMessageKind::LoginResponse
        | PeerMessageKind::CursorData | PeerMessageKind::CursorId
        | PeerMessageKind::CursorPosition | PeerMessageKind::Clipboard
        | PeerMessageKind::FileResponse | PeerMessageKind::Misc | PeerMessageKind::AudioFrame
        | PeerMessageKind::FileAction | PeerMessageKind::KeyEvent | PeerMessageKind::MouseEvent)
}

/// The kinds an active session writes to its stream when its partner sends
/// them (a command is answered rather than passed on).
pub open spec fn active_takes(kind: PeerMessageKind) -> bool {
    matches!(kind,
        PeerMessageKind::Hash | PeerMessageKind::CmdAction | PeerMessageKind::TestDelay
        | PeerMessageKind::VideoFrame | PeerMessageKind::LoginResponse
        | PeerMessageKind::CursorData | PeerMessageKind::CursorId
        | PeerMessageKind::CursorPosition | PeerMessageKind::Clipboard
        | PeerMessageKind::FileResponse | PeerMessageKind::Misc | PeerMessageKind::AudioFrame)
}

/// The kinds a passive session passes to its partner when its stream sends them.
pub open spec fn passive_sends(kind: PeerMessageKind) -> bool {
    kind != PeerMessageKind::Other
}

/// The kinds an active session passes to its partner when its stream sends them.
pub open spec fn active_sends(kind: PeerMessageKind) -> bool {
    kind != PeerMessageKind::Other && kind != PeerMessageKind::Hash
}

/// What a session on `side` does with a message of `kind` from its partner.
pub open spec fn spec_from_partner(side: Side, kind: PeerMessageKind) -> Delivery {
    match side {
        Side::Passive => if !passive_takes(kind) {
            Delivery::Drop
        } else {
            Delivery::Pass {
                stop_if_send_fails: !matches!(kind,
                    PeerMessageKind::CmdAction | PeerMessageKind::LoginRequest
                    | PeerMessageKind::FileAction | PeerMessageKind::KeyEvent
                    | PeerMessageKind::MouseEvent),
            }
        },
        Side::Active => if !active_takes(kind) {
            Delivery::Drop
        } else if kind == PeerMessageKind::CmdAction {
            Delivery::AnswerCommand
        } else {
            Delivery::Pass { stop_if_send_fails: false }
        },
    }
}

/// What a session on `side` does with a message of `kind` from its own stream.
pub open spec fn spec_from_stream(side: Side, kind: PeerMessageKind) -> Delivery {
    match side {
        Side::Passive => if !passive_sends(kind) {
            Delivery::Drop
        } else {
            Delivery::Pass { stop_if_send_fails: kind != PeerMessageKind::Hash }
        },
        Side::Active => if !active_sends(kind) {
            Delivery::Drop
        } else {
            Delivery::Pass { stop_if_send_fails: false }
        },
    }
}

/// What a session on `side` does with a message of `kind` from its partner:
/// it writes it to its own stream, answers it, or leaves it.
pub fn from_partner(side: Side, kind: PeerMessageKind) -> (d: Delivery)
    ensures
        d == spec_from_partner(side, kind),
{
    match side {
        Side::Passive => match kind {
            PeerMessageKind::CmdAction | PeerMessageKind::LoginRequest
            | PeerMessageKind::FileAction | PeerMessageKind::KeyEvent
            | PeerMessageKind::MouseEvent => Delivery::Pass { stop_if_send_fails: false },
            PeerMessageKind::TestDelay | PeerMessageKind::VideoFrame
            | PeerMessageKind::LoginResponse | PeerMessageKind::CursorData
            | PeerMessageKind::CursorId | PeerMessageKind::CursorPosition
            | PeerMessageKind::Clipboard | PeerMessageKind::FileResponse | PeerMessageKind::Misc
            | PeerMessageKind::AudioFrame => Delivery::Pass { stop_if_send_fails: true },
            _ => Delivery::Drop,
        },
        Side::Active => match kind {
            PeerMessageKind::CmdAction => Delivery::AnswerCommand,
            PeerMessageKind::Hash | PeerMessageKind::TestDelay | PeerMessageKind::VideoFrame
            | PeerMessageKind::LoginResponse | PeerMessageKind::CursorData
            | PeerMessageKind::CursorId | PeerMessageKind::CursorPosition
            | PeerMessageKind::Clipboard | PeerMessageKind::FileResponse | PeerMessageKind::Misc
            | PeerMessageKind::AudioFrame => Delivery::Pass { stop_if_send_fails: false },
            _ => Delivery::Drop,
        },
    }
}

/// What a session on `side` does with a message of `kind` read from its own
/// stream: it passes it to its partner or leaves it.
pub fn from_stream(side: Side, kind: PeerMessageKind) -> (d: Delivery)
    ensures
        d == spec_from_stream(side, kind),
{
    match kind {
        PeerMessageKind::Other => Delivery::Drop,
        PeerMessageKind::Hash => match side {
            Side::Passive => Delivery::Pass { stop_if_send_fails: false },
            Side::Active => Delivery::Drop,
        },
        _ => match side {
            Side::Passive => Delivery::Pass { stop_if_send_fails: true },
            Side::Active => Delivery::Pass { stop_if_send_fails: false },
        },
    }
}

} // verus!
