//! The registry of online peers: one table keyed by peer id, one keyed by the
//! text of the peer's IP address. Peers keep their entries alive with UDP
//! heartbeats; entries whose last heartbeat is older than the limit are swept.
use vstd::prelude::*;

use dashmap::DashMap;

use crate::addr::PeerAddr;
use crate::clock::get_time;
use crate::protocol::{relay_server, spec_relay_server, Event, RendezvousIn, RendezvousOut};
use crate::table::Keyed;

verus! {

/// What the server knows of an online peer.
#[derive(Debug, Clone)]
pub struct client {
    /// The time of the last heartbeat, in milliseconds since the epoch.
    pub timestamp: u64,
    /// The address the heartbeat came from.
    pub local_addr: PeerAddr,
    /// The IP text of the peer this one is paired with, or empty.
    pub peer_ip: String,
    /// The peer id registered from this address, or empty.
    pub uuid: String,
}

/// The plain view of a `client`.
pub struct ClientView {
    pub timestamp: u64,
    pub local_addr: (Seq<char>, u16, u32, u32),
    pub peer_ip: Seq<char>,
    pub uuid: Seq<char>,
}

impl View for client {
    type V = ClientView;

    open spec fn view(&self) -> ClientView {
        ClientView {
            timestamp: self.timestamp,
            local_addr: self.local_addr@,
            peer_ip: self.peer_ip@,
            uuid: self.uuid@,
        }
    }
}

impl client {
    /// A copy with the same view.
    pub fn duplicate(&self) -> (r: client)
        ensures
            r@ == self@,
    {
        client {
            timestamp: self.timestamp,
            local_addr: self.local_addr.duplicate(),
            peer_ip: self.peer_ip.clone(),
            uuid: self.uuid.clone(),
        }
    }
}

/// How long a peer stays registered without a heartbeat, in milliseconds.
pub open spec fn spec_heartbeat_limit_ms() -> u64 {
    20000
}

/// How long a peer stays registered without a heartbeat, in milliseconds.
pub fn heartbeat_limit_ms() -> (r: u64)
    ensures
        r == spec_heartbeat_limit_ms(),
{
    20000
}

/// Whether an entry heard from at `timestamp` is still live at cutoff `cutoff`.
pub fn is_fresh(c: &client, cutoff: u64) -> (r: bool)
    ensures
        r == (c.timestamp > cutoff),
{
    c.timestamp > cutoff
}

#[verifier::external_type_specification]
#[verifier::external_body]
#[verifier::reject_recursive_types(K)]
#[verifier::reject_recursive_types(V)]
#[verifier::reject_recursive_types(S)]
pub struct ExDashMap<K, V, S>(DashMap<K, V, S>);

/// A concurrent map of peers keyed by text.
pub type PeerMap = DashMap<String, client>;

/// What a `DashMap` of peers holds: each key, by its text, and its entry.
pub uninterp spec fn peer_map_entries(m: DashMap<String, client>) -> Map<Seq<char>, client>;

/// A table without entries.
pub open spec fn no_entries() -> Map<Seq<char>, client> {
    Map::empty()
}

/// The entries of `m` whose timestamp is later than `cutoff`.
pub open spec fn keep_fresh<K>(m: Map<K, client>, cutoff: u64) -> Map<K, client> {
    Map::new(|k: K| m.contains_key(k) && m[k].timestamp > cutoff, |k: K| m[k])
}

/// Calls `DashMap::new`: an empty map.
#[verifier::external_body]
fn peer_map_new() -> (created: PeerMap)
    ensures
        peer_map_entries(created) == no_entries(),
{
    DashMap::new()
}

/// Calls `DashMap::get` and copies the entry out of the guard it returns: the
/// entry under `key`, where there is one.
#[verifier::external_body]
fn peer_map_get(m: &DashMap<String, client>, key: &String) -> (r: Option<client>)
    ensures
        match r {
            Some(c) => peer_map_entries(*m).contains_key(key@) && c@ == peer_map_entries(
                *m,
            )[key@]@,
            None => !peer_map_entries(*m).contains_key(key@),
        },
{
    m.get(key).map(|entry| entry.value().clone())
}

/// Calls `DashMap::insert`: afterwards `key` holds `value` and every other key
/// is unchanged. The previous entry that it returns is dropped.
#[verifier::external_body]
fn peer_map_insert(m: &mut DashMap<String, client>, key: String, value: client)
    ensures
        peer_map_entries(*final(m)) == peer_map_entries(*old(m)).insert(key@, value),
{
    m.insert(key, value);
}

/// Calls `DashMap::retain` with `is_fresh`: the entries with a timestamp later
/// than `cutoff` stay, unchanged, and the others are removed.
#[verifier::external_body]
fn peer_map_retain_fresh(m: &mut DashMap<String, client>, cutoff: u64)
    ensures
        peer_map_entries(*final(m)) == keep_fresh(peer_map_entries(*old(m)), cutoff),
{
    m.retain(|_, c| is_fresh(c, cutoff));
}

/// The two tables of the registry, by their views.
pub struct RegistryView {
    pub ids: Map<Seq<char>, ClientView>,
    pub ips: Map<Seq<char>, ClientView>,
}

/// The table of `m`, each entry by its view.
pub open spec fn viewed(m: Map<Seq<char>, client>) -> Map<Seq<char>, ClientView> {
    m.map_values(|c: client| c@)
}

/// The entries of a viewed table whose timestamp is later than `cutoff`.
pub open spec fn fresh_only(m: Map<Seq<char>, ClientView>, cutoff: u64) -> Map<
    Seq<char>,
    ClientView,
> {
    Map::new(|k: Seq<char>| m.contains_key(k) && m[k].timestamp > cutoff, |k: Seq<char>| m[k])
}

/// What a sweep by the clock reading `now` does: it happens exactly where
/// `now` is at least the heartbeat limit, and then keeps the peers by id heard
/// from after `now` less the limit; the table by address is never swept.
pub open spec fn sweep_outcome(
    before: RegistryView,
    now: u64,
    after: RegistryView,
    swept: bool,
) -> bool {
    &&& swept == (now >= spec_heartbeat_limit_ms())
    &&& swept ==> after.ids == fresh_only(before.ids, (now - spec_heartbeat_limit_ms()) as u64)
    &&& !swept ==> after.ids == before.ids
    &&& after.ips == before.ips
}

/// The entry a heartbeat from `addr` at `now` leaves under the peer's id.
pub open spec fn heartbeat_entry(addr: (Seq<char>, u16, u32, u32), now: u64) -> ClientView {
    ClientView { timestamp: now, local_addr: addr, peer_ip: Seq::empty(), uuid: Seq::empty() }
}

/// The entry a heartbeat of peer `id` from `addr` at `now` leaves under the IP
/// text of `addr`: the pairing recorded there before, if any, is kept.
pub open spec fn address_entry(
    before: Map<Seq<char>, ClientView>,
    id: Seq<char>,
    addr: (Seq<char>, u16, u32, u32),
    now: u64,
) -> ClientView {
    ClientView {
        timestamp: now,
        local_addr: addr,
        peer_ip: if before.contains_key(addr.0) {
            before[addr.0].peer_ip
        } else {
            Seq::empty()
        },
        uuid: id,
    }
}

/// The registry after a heartbeat of peer `id` from `addr` at `now`.
pub open spec fn after_heartbeat(
    before: RegistryView,
    id: Seq<char>,
    addr: (Seq<char>, u16, u32, u32),
    now: u64,
) -> RegistryView {
    RegistryView {
        ids: before.ids.insert(id, heartbeat_entry(addr, now)),
        ips: before.ips.insert(addr.0, address_entry(before.ips, id, addr, now)),
    }
}

/// The registry after the first step of hole punching towards peer `id`,
/// reported from address `a` at `now`: the entry under the IP text of `a`
/// names the IP of the peer registered under `id` in the address table.
pub open spec fn after_hole_punch(
    before: RegistryView,
    id: Seq<char>,
    a: (Seq<char>, u16, u32, u32),
    now: u64,
) -> RegistryView {
    RegistryView {
        ids: before.ids.insert(
            a.0,
            ClientView {
                timestamp: now,
                local_addr: a,
                peer_ip: before.ips[id].local_addr.0,
                uuid: Seq::empty(),
            },
        ),
        ips: before.ips,
    }
}

/// What the server answers to a UDP message, and whether the registry
/// changes: a heartbeat is answered with whether the server wants the peer's
/// public key (it does for a peer it does not know), a key announcement with
/// OK, anything else not at all.
pub open spec fn udp_outcome(
    before: RegistryView,
    msg: RendezvousIn,
    addr: (Seq<char>, u16, u32, u32),
    now: u64,
    after: RegistryView,
    reply: Option<RendezvousOut>,
) -> bool {
    match msg {
        RendezvousIn::RegisterPeer { id } => {
            &&& after == after_heartbeat(before, id@, addr, now)
            &&& reply matches Some(RendezvousOut::RegisterPeerResponse { request_pk })
            &&& request_pk == !before.ids.contains_key(id@)
        },
        RendezvousIn::RegisterPk => {
            &&& after == before
            &&& reply matches Some(RendezvousOut::RegisterPkOk)
        },
        _ => {
            &&& after == before
            &&& reply is None
        },
    }
}

/// The registry of online peers.
pub struct Registry {
    id_map: DashMap<String, client>,
    ip_map: DashMap<String, client>,
}

impl View for Registry {
    type V = RegistryView;

    closed spec fn view(&self) -> RegistryView {
        RegistryView {
            ids: viewed(peer_map_entries(self.id_map)),
            ips: viewed(peer_map_entries(self.ip_map)),
        }
    }
}

proof fn lemma_viewed_insert(m: Map<Seq<char>, client>, k: Seq<char>, c: client)
    ensures
        viewed(m.insert(k, c)) == viewed(m).insert(k, c@),
{
    assert(viewed(m.insert(k, c)) =~= viewed(m).insert(k, c@));
}

proof fn lemma_viewed_fresh(m: Map<Seq<char>, client>, cutoff: u64)
    ensures
        viewed(keep_fresh(m, cutoff)) == fresh_only(viewed(m), cutoff),
{
    assert(viewed(keep_fresh(m, cutoff)) =~= fresh_only(viewed(m), cutoff));
}

impl Registry {
    /// An empty registry.
    pub fn new() -> (r: Registry)
        ensures
            r@.ids == Map::<Seq<char>, ClientView>::empty(),
            r@.ips == Map::<Seq<char>, ClientView>::empty(),
    {
        let r = Registry { id_map: peer_map_new(), ip_map: peer_map_new() };
        assert(r@.ids =~= Map::<Seq<char>, ClientView>::empty());
        assert(r@.ips =~= Map::<Seq<char>, ClientView>::empty());
        r
    }

    /// The entry registered under peer id `id`.
    pub fn lookup_id(&self, id: &String) -> (r: Option<client>)
        ensures
            match r {
                Some(c) => self@.ids.contains_key(id@) && c@ == self@.ids[id@],
                None => !self@.ids.contains_key(id@),
            },
    {
        peer_map_get(&self.id_map, id)
    }

    /// The entry registered under the IP text `ip`.
    pub fn lookup_ip(&self, ip: &String) -> (r: Option<client>)
        ensures
            match r {
                Some(c) => self@.ips.contains_key(ip@) && c@ == self@.ips[ip@],
                None => !self@.ips.contains_key(ip@),
            },
    {
        peer_map_get(&self.ip_map, ip)
    }

    /// Records a heartbeat of peer `id` from `addr` at `now`, and returns
    /// whether the server asks the peer for its public key: it does where the
    /// id was not registered before.
    pub fn register_peer_at(&mut self, id: String, addr: PeerAddr, now: u64) -> (request_pk: bool)
        ensures
            request_pk == !old(self)@.ids.contains_key(id@),
            final(self)@ == after_heartbeat(old(self)@, id@, addr@, now),
    {
        let ghost before = self@;
        let known = peer_map_get(&self.id_map, &id);
        let request_pk = known.is_none();
        let entry = client {
            timestamp: now,
            local_addr: addr.duplicate(),
            peer_ip: String::new(),
            uuid: String::new(),
        };
        proof {
            lemma_viewed_insert(peer_map_entries(self.id_map), id@, entry);
        }
        peer_map_insert(&mut self.id_map, id.clone(), entry);
        let ip = addr.ip_text();
        let previous = peer_map_get(&self.ip_map, &ip);
        let peer_ip = match previous {
            None => String::new(),
            Some(e) => e.peer_ip,
        };
        let by_address = client { timestamp: now, local_addr: addr, peer_ip, uuid: id };
        proof {
            lemma_viewed_insert(peer_map_entries(self.ip_map), ip@, by_address);
        }
        peer_map_insert(&mut self.ip_map, ip, by_address);
        proof {
            assert(self@.ids == before.ids.insert(id@, heartbeat_entry(addr@, now)));
            assert(self@.ips == before.ips.insert(
                addr@.0,
                address_entry(before.ips, id@, addr@, now),
            ));
        }
        request_pk
    }

    /// Handles a rendezvous message that arrived by UDP from `addr` at `now`,
    /// and returns the answer to send back, if any.
    pub fn handle_udp_at(&mut self, msg: &RendezvousIn, addr: &PeerAddr, now: u64) -> (reply:
        Option<RendezvousOut>)
        ensures
            udp_outcome(old(self)@, *msg, addr@, now, final(self)@, reply),
    {
        match msg {
            RendezvousIn::RegisterPeer { id } => {
                let request_pk = self.register_peer_at(id.clone(), addr.duplicate(), now);
                Some(RendezvousOut::RegisterPeerResponse { request_pk })
            },
            RendezvousIn::RegisterPk => Some(RendezvousOut::RegisterPkOk),
            _ => None,
        }
    }

    /// Handles a rendezvous message that arrived by UDP from `addr`, stamping
    /// the registry with the current time.
    pub fn handle_udp(&mut self, msg: &RendezvousIn, addr: &PeerAddr) -> (reply: Option<
        RendezvousOut,
    >)
        ensures
            exists|now: u64| udp_outcome(old(self)@, *msg, addr@, now, final(self)@, reply),
    {
        let now = get_time();
        self.handle_udp_at(msg, addr, now)
    }

    /// Removes the peers not heard from in the last `heartbeat_limit_ms()`
    /// milliseconds before `now`. The table by address is left as it is.
    pub fn expire_stale_at(&mut self, now: u64)
        requires
            now >= spec_heartbeat_limit_ms(),
        ensures
            final(self)@.ids == fresh_only(old(self)@.ids, (now - spec_heartbeat_limit_ms()) as u64),
            final(self)@.ips == old(self)@.ips,
    {
        let cutoff = now - heartbeat_limit_ms();
        proof {
            lemma_viewed_fresh(peer_map_entries(self.id_map), cutoff);
        }
        peer_map_retain_fresh(&mut self.id_map, cutoff);
    }

    /// Sweeps by the clock reading `now`: where `now` is at least
    /// `heartbeat_limit_ms()`, removes the peers not heard from in the last
    /// `heartbeat_limit_ms()` milliseconds before it and returns `true`;
    /// otherwise changes nothing and returns `false`.
    pub fn sweep_at(&mut self, now: u64) -> (swept: bool)
        ensures
            sweep_outcome(old(self)@, now, final(self)@, swept),
    {
        if now >= heartbeat_limit_ms() {
            self.expire_stale_at(now);
            true
        } else {
            false
        }
    }

    /// Sweeps by the current time, as `sweep_at` does with the clock's reading.
    pub fn expire_stale(&mut self) -> (swept: bool)
        ensures
            exists|now: u64| #[trigger] sweep_outcome(old(self)@, now, final(self)@, swept),
    {
        let now = get_time();
        self.sweep_at(now)
    }

    /// Records the first step of hole punching towards peer `id`, reported
    /// from address `a` at `now`. The peer must be registered under `id` in
    /// the table by address.
    pub fn record_hole_punch_at(&mut self, id: &String, a: PeerAddr, now: u64)
        requires
            old(self)@.ips.contains_key(id@),
        ensures
            final(self)@ == after_hole_punch(old(self)@, id@, a@, now),
    {
        let ghost before = self@;
        let remote = peer_map_get(&self.ip_map, id);
        let remote_ip = match remote {
            Some(r) => r.local_addr.ip_text(),
            None => String::new(),
        };
        let local_ip = a.ip_text();
        let entry = client { timestamp: now, local_addr: a, peer_ip: remote_ip, uuid: String::new() };
        proof {
            lemma_viewed_insert(peer_map_entries(self.id_map), local_ip@, entry);
        }
        peer_map_insert(&mut self.id_map, local_ip, entry);
        proof {
            assert(self@ == after_hole_punch(before, id@, a@, now));
        }
    }

    /// Records the first step of hole punching at the current time.
    pub fn record_hole_punch(&mut self, id: &String, a: PeerAddr)
        requires
            old(self)@.ips.contains_key(id@),
        ensures
            exists|now: u64| final(self)@ == after_hole_punch(old(self)@, id@, a@, now),
    {
        let now = get_time();
        self.record_hole_punch_at(id, a, now);
    }

    /// Whether a message that the peer at IP `sender_ip` put on the broadcast
    /// channel goes to the connection from IP `my_ip`: only where the address
    /// table pairs `my_ip` with `sender_ip`.
    pub fn passes_broadcast(&self, my_ip: &String, sender_ip: &String) -> (r: bool)
        ensures
            r == (self@.ips.contains_key(my_ip@) && self@.ips[my_ip@].peer_ip == sender_ip@),
    {
        match peer_map_get(&self.ip_map, my_ip) {
            None => false,
            Some(e) => e.peer_ip == *sender_ip,
        }
    }
}

} // verus!
