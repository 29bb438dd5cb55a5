use crate::lobby::Lobby;
use crate::player::Player;
use std::collections::HashMap;
use vstd::prelude::*;

verus! {

broadcast use vstd::std_specs::hash::group_hash_axioms;

/// Whether `l` is what a reference to `channel` finds in lobbies `m`: the
/// lobby kept for it, or a fresh empty one when there is none yet.
pub open spec fn found(m: Map<u64, Lobby>, channel: u64, l: Lobby) -> bool {
    if m.contains_key(channel) {
        l == m[channel]
    } else {
        l@ == Seq::<Player>::empty()
    }
}

/// The lobbies of all channels seen so far, one per channel id. An entry is
/// made on a channel's first reference and kept for the life of the
/// registry: nothing is ever evicted, merged or moved.
pub struct Registry {
    lobbies: HashMap<u64, Lobby>,
}

impl View for Registry {
    type V = Map<u64, Lobby>;

    closed spec fn view(&self) -> Map<u64, Lobby> {
        self.lobbies@
    }
}

impl Registry {
    /// A registry with no lobbies.
    pub fn new() -> (r: Registry)
        ensures
            r@ == Map::<u64, Lobby>::empty(),
    {
        Registry { lobbies: HashMap::new() }
    }

    /// The number of channels that have a lobby.
    pub fn len(&self) -> (r: usize)
        ensures
            r == self@.len(),
    {
        self.lobbies.len()
    }

    /// Whether `channel` has a lobby yet.
    pub fn contains(&self, channel: u64) -> (r: bool)
        ensures
            r == self@.contains_key(channel),
    {
        self.lobbies.contains_key(&channel)
    }

    /// The lobby of `channel`, made empty on the channel's first reference.
    /// Whatever the caller does through the reference is what the registry
    /// keeps for that channel; every other channel stays as it was.
    pub fn lobby(&mut self, channel: u64) -> (r: &mut Lobby)
        ensures
            found(old(self)@, channel, *r),
            final(self)@ == old(self)@.insert(channel, *final(r)),
    {
        self.lobbies.entry(channel).or_insert(Lobby::new())
    }
}

/// A channel's lobby is made once: after a first reference has left lobby
/// `kept` for `channel`, any later reference finds that same lobby, and the
/// lobbies of other channels are untouched.
pub proof fn lemma_same_lobby_later(m: Map<u64, Lobby>, channel: u64, first: Lobby, kept: Lobby, later: Lobby)
    requires
        found(m, channel, first),
        found(m.insert(channel, kept), channel, later),
    ensures
        later == kept,
        m.insert(channel, kept).dom() == m.dom().insert(channel),
        forall|other: u64| other != channel && m.contains_key(other) ==> #[trigger] m.insert(channel, kept)[other] == m[other],
{
    assert(m.insert(channel, kept).dom() =~= m.dom().insert(channel));
}

} // verus!
