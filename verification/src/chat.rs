//! The chat-style relays: every connection hears the broadcast channel, and a
//! rule decides which connection gets which message.
use vstd::prelude::*;

use dashmap::DashMap;

use crate::addr::PeerAddr;
use crate::clock::get_time;
use crate::registry::{heartbeat_limit_ms, spec_heartbeat_limit_ms};

verus! {

/// A peer of the one-to-one relay.
#[derive(Debug, Clone)]
pub struct Client {
    /// The time of the last heartbeat, in milliseconds since the epoch.
    pub timestamp: u64,
    pub local_addr: String,
    /// The IP text of the peer whose messages this one receives.
    pub peer_addr: String,
    /// The address inside the peer's own network.
    pub uuid: String,
}

/// The plain view of a `Client`.
pub struct ClientRecord {
    pub timestamp: u64,
    pub local_addr: Seq<char>,
    pub peer_addr: Seq<char>,
    pub uuid: Seq<char>,
}

impl View for Client {
    type V = ClientRecord;

    open spec fn view(&self) -> ClientRecord {
        ClientRecord {
            timestamp: self.timestamp,
            local_addr: self.local_addr@,
            peer_addr: self.peer_addr@,
            uuid: self.uuid@,
        }
    }
}

/// A concurrent map of relay peers keyed by IP text.
pub type CastMap = DashMap<String, Client>;

/// What a `DashMap` of relay peers holds: each key, by its text, and its entry.
pub uninterp spec fn cast_map_entries(m: DashMap<String, Client>) -> Map<Seq<char>, Client>;

/// A table without entries.
pub open spec fn no_clients() -> Map<Seq<char>, Client> {
    Map::empty()
}

/// The entries of `m` whose timestamp is later than `cutoff`.
pub open spec fn keep_live(m: Map<Seq<char>, Client>, cutoff: u64) -> Map<Seq<char>, Client> {
    Map::new(|k: Seq<char>| m.contains_key(k) && m[k].timestamp > cutoff, |k: Seq<char>| m[k])
}

/// Whether a relay peer heard from at its timestamp is live at `cutoff`.
pub fn is_live(c: &Client, cutoff: u64) -> (r: bool)
    ensures
        r == (c.timestamp > cutoff),
{
    c.timestamp > cutoff
}

/// Calls `DashMap::new`: an empty map.
#[verifier::external_body]
fn cast_map_new() -> (created: CastMap)
    ensures
        cast_map_entries(created) == no_clients(),
{
    DashMap::new()
}

/// Calls `DashMap::get` and copies the entry out of the guard it returns: the
/// entry under `key`, where there is one.
#[verifier::external_body]
fn cast_map_get(m: &CastMap, key: &String) -> (r: Option<Client>)
    ensures
        match r {
            Some(c) => cast_map_entries(*m).contains_key(key@) && c@ == cast_map_entries(
                *m,
            )[key@]@,
            None => !cast_map_entries(*m).contains_key(key@),
        },
{
    m.get(key).map(|entry| entry.value().clone())
}

/// Calls `DashMap::insert`: afterwards `key` holds `value` and every other key
/// is unchanged. The previous entry that it returns is dropped.
#[verifier::external_body]
fn cast_map_insert(m: &mut CastMap, key: String, value: Client)
    ensures
        cast_map_entries(*final(m)) == cast_map_entries(*old(m)).insert(key@, value),
{
    m.insert(key, value);
}

/// Calls `DashMap::retain` with `is_live`: the entries with a timestamp later
/// than `cutoff` stay, unchanged, and the others are removed.
#[verifier::external_body]
fn cast_map_retain_live(m: &mut CastMap, cutoff: u64)
    ensures
        cast_map_entries(*final(m)) == keep_live(cast_map_entries(*old(m)), cutoff),
{
    m.retain(|_, c| is_live(c, cutoff));
}

/// The table of the one-to-one relay, by IP text, each entry by its view.
pub open spec fn records(m: Map<Seq<char>, Client>) -> Map<Seq<char>, ClientRecord> {
    m.map_values(|c: Client| c@)
}

/// The records of `m` whose timestamp is later than `cutoff`.
pub open spec fn live_only(m: Map<Seq<char>, ClientRecord>, cutoff: u64) -> Map<
    Seq<char>,
    ClientRecord,
> {
    Map::new(|k: Seq<char>| m.contains_key(k) && m[k].timestamp > cutoff, |k: Seq<char>| m[k])
}

/// What a sweep by the clock reading `now` does: it happens exactly where
/// `now` is at least the heartbeat limit, and then keeps the peers heard from
/// after `now` less the limit.
pub open spec fn cast_sweep_outcome(
    before: Map<Seq<char>, ClientRecord>,
    now: u64,
    after: Map<Seq<char>, ClientRecord>,
    swept: bool,
) -> bool {
    &&& swept == (now >= spec_heartbeat_limit_ms())
    &&& swept ==> after == live_only(before, (now - spec_heartbeat_limit_ms()) as u64)
    &&& !swept ==> after == before
}

/// The peers of the one-to-one relay, by IP text.
pub struct CastTable {
    id_map: DashMap<String, Client>,
}

impl View for CastTable {
    type V = Map<Seq<char>, ClientRecord>;

    closed spec fn view(&self) -> Map<Seq<char>, ClientRecord> {
        records(cast_map_entries(self.id_map))
    }
}

impl CastTable {
    /// An empty table.
    pub fn new() -> (t: CastTable)
        ensures
            t@ == Map::<Seq<char>, ClientRecord>::empty(),
    {
        let t = CastTable { id_map: cast_map_new() };
        assert(t@ =~= Map::<Seq<char>, ClientRecord>::empty());
        t
    }

    /// Records `c` as the peer at IP text `ip`.
    pub fn register(&mut self, ip: String, c: Client)
        ensures
            final(self)@ == old(self)@.insert(ip@, c@),
    {
        let ghost before = cast_map_entries(self.id_map);
        proof {
            peer_insert_view(before, ip@, c);
        }
        cast_map_insert(&mut self.id_map, ip, c);
    }

    /// The peer recorded at IP text `ip`.
    pub fn lookup(&self, ip: &String) -> (r: Option<Client>)
        ensures
            match r {
                Some(c) => self@.contains_key(ip@) && c@ == self@[ip@],
                None => !self@.contains_key(ip@),
            },
    {
        cast_map_get(&self.id_map, ip)
    }

    /// Whether a message that the connection from IP `sender_ip` put on the
    /// broadcast channel goes to the connection from IP `my_ip`: only where
    /// the table names `sender_ip` as the peer of `my_ip`.
    pub fn passes(&self, my_ip: &String, sender_ip: &String) -> (r: bool)
        ensures
            r == (self@.contains_key(my_ip@) && self@[my_ip@].peer_addr == sender_ip@),
    {
        match cast_map_get(&self.id_map, my_ip) {
            Some(c) => c.peer_addr == *sender_ip,
            None => false,
        }
    }

    /// Removes the peers not heard from in the last `heartbeat_limit_ms()`
    /// milliseconds before `now`.
    pub fn expire_stale_at(&mut self, now: u64)
        requires
            now >= spec_heartbeat_limit_ms(),
        ensures
            final(self)@ == live_only(old(self)@, (now - spec_heartbeat_limit_ms()) as u64),
    {
        let cutoff = now - heartbeat_limit_ms();
        let ghost before = cast_map_entries(self.id_map);
        assert(records(keep_live(before, cutoff)) =~= live_only(records(before), cutoff));
        cast_map_retain_live(&mut self.id_map, cutoff);
    }

    /// Sweeps by the clock reading `now`: where `now` is at least
    /// `heartbeat_limit_ms()`, removes the peers not heard from in the last
    /// `heartbeat_limit_ms()` milliseconds before it and returns `true`;
    /// otherwise changes nothing and returns `false`.
    pub fn sweep_at(&mut self, now: u64) -> (swept: bool)
        ensures
            cast_sweep_outcome(old(self)@, now, final(self)@, swept),
    {
        if now >= heartbeat_limit_ms() {
            self.expire_stale_at(now);
            true
        } else {
            false
        }
    }

    /// Sweeps by the current time, as `sweep_at` does with the clock's reading.
    pub fn expire_stale(&mut self) -> (swept: bool)
        ensures
            exists|now: u64| #[trigger] cast_sweep_outcome(old(self)@, now, final(self)@, swept),
    {
        let now = get_time();
        self.sweep_at(now)
    }
}

proof fn peer_insert_view(m: Map<Seq<char>, Client>, k: Seq<char>, c: Client)
    ensures
        records(m.insert(k, c)) == records(m).insert(k, c@),
{
    assert(records(m.insert(k, c)) =~= records(m).insert(k, c@));
}

/// Whether a broadcast message that came from `sender` goes to the
/// connection from `listener`: every connection but the sender's own.
pub fn reaches(listener: &PeerAddr, sender: &PeerAddr) -> (r: bool)
    ensures
        r == (listener@ != sender@),
{
    !(listener.port == sender.port && listener.flowinfo == sender.flowinfo && listener.scope_id
        == sender.scope_id && listener.ip == sender.ip)
}

/// The name a line-based client announces: its first line, or `"hah"` where
/// no line came.
pub fn username_or_default(line: Option<String>) -> (name: String)
    ensures
        match line {
            Some(l) => name@ == l@,
            None => name@ == "hah"@,
        },
{
    match line {
        Some(l) => l,
        None => String::from_str("hah"),
    }
}

} // verus!
