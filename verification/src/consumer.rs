//! Two producers put their channels into shared tables under fixed names; a
//! consumer takes both channels out and listens to them together.
use vstd::prelude::*;

use crate::table::Table;

verus! {

/// A channel the consumer asked for is not there.
#[derive(Debug, Clone, Copy, PartialEq, Eq, Structural)]
pub enum ChannelError {
    /// No channel under `"B"`.
    None1,
    /// No channel under `"A"`.
    None2,
}

/// The shared tables of channels, by their views.
pub struct ChannelsView {
    pub receivers_18: Map<Seq<char>, u64>,
    pub receivers_19: Map<Seq<char>, u64>,
}

/// The tables in which producers leave their channels.
pub struct Channels {
    receivers_18: Table<String, u64>,
    receivers_19: Table<String, u64>,
}

impl View for Channels {
    type V = ChannelsView;

    closed spec fn view(&self) -> ChannelsView {
        ChannelsView { receivers_18: self.receivers_18@, receivers_19: self.receivers_19@ }
    }
}

/// What the consumer gets from the tables: the channel under `"B"` and the
/// channel under `"A"`, or the error for the first that is missing.
pub open spec fn pair_rule(s: ChannelsView) -> Result<(u64, u64), ChannelError> {
    if !s.receivers_18.contains_key("B"@) {
        Err(ChannelError::None1)
    } else if !s.receivers_19.contains_key("A"@) {
        Err(ChannelError::None2)
    } else {
        Ok((s.receivers_18["B"@], s.receivers_19["A"@]))
    }
}

impl Channels {
    /// Empty tables.
    pub fn new() -> (c: Channels)
        ensures
            c@.receivers_18 == Map::<Seq<char>, u64>::empty(),
            c@.receivers_19 == Map::<Seq<char>, u64>::empty(),
    {
        Channels { receivers_18: Table::new(), receivers_19: Table::new() }
    }

    /// The first producer leaves its channel under `"A"`.
    pub fn register_a(&mut self, channel: u64)
        ensures
            final(self)@.receivers_19 == old(self)@.receivers_19.insert("A"@, channel),
            final(self)@.receivers_18 == old(self)@.receivers_18,
    {
        self.receivers_19.insert(String::from_str("A"), channel);
    }

    /// The second producer leaves its channel under `"B"`.
    pub fn register_b(&mut self, channel: u64)
        ensures
            final(self)@.receivers_18 == old(self)@.receivers_18.insert("B"@, channel),
            final(self)@.receivers_19 == old(self)@.receivers_19,
    {
        self.receivers_18.insert(String::from_str("B"), channel);
    }

    /// The two channels the consumer listens to.
    pub fn channel_pair(&self) -> (r: Result<(u64, u64), ChannelError>)
        ensures
            r == pair_rule(self@),
    {
        let b = String::from_str("B");
        let a = String::from_str("A");
        let chan1 = match self.receivers_18.get(&b) {
            Some(c) => c,
            None => return Err(ChannelError::None1),
        };
        let chan2 = match self.receivers_19.get(&a) {
            Some(c) => c,
            None => return Err(ChannelError::None2),
        };
        Ok((chan1, chan2))
    }
}

/// What the first producer sends each second.
pub fn batch_a() -> (v: Vec<String>)
    ensures
        v@.len() == 3,
        v@[0]@ == "111"@,
        v@[1]@ == "222"@,
        v@[2]@ == "3333"@,
{
    let mut v = Vec::new();
    v.push(String::from_str("111"));
    v.push(String::from_str("222"));
    v.push(String::from_str("3333"));
    v
}

/// What the second producer sends each second.
pub fn batch_b() -> (v: Vec<String>)
    ensures
        v@.len() == 3,
        v@[0]@ == "444"@,
        v@[1]@ == "555"@,
        v@[2]@ == "666"@,
{
    let mut v = Vec::new();
    v.push(String::from_str("444"));
    v.push(String::from_str("555"));
    v.push(String::from_str("666"));
    v
}

} // verus!
