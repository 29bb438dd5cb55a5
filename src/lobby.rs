use crate::player::{mention_text, Player};
use crate::text::{join, join_texts, owned, texts};
use vstd::prelude::*;
use vstd::string::*;

verus! {

/// The fewest players a game can start with.
pub const MIN_PLAYERS: usize = 2;

/// Whether some entry of `s` has id `id`.
pub open spec fn has_id(s: Seq<Player>, id: u64) -> bool {
    exists|i: int| 0 <= i < s.len() && s[i].id == id
}

/// No two entries of `s` share an id.
pub open spec fn ids_unique(s: Seq<Player>) -> bool {
    forall|i: int, j: int| 0 <= i < s.len() && 0 <= j < s.len() && i != j ==> s[i].id != s[j].id
}

/// The waiting list after `p` asks to join: unchanged when `p`'s id is
/// already present, else `p` appended at the end.
pub open spec fn joined(s: Seq<Player>, p: Player) -> Seq<Player> {
    if has_id(s, p.id) {
        s
    } else {
        s.push(p)
    }
}

/// Whether a player keeps its place when id `id` leaves.
pub open spec fn stays(id: u64) -> spec_fn(Player) -> bool {
    |q: Player| q.id != id
}

/// The waiting list with every entry of id `id` taken out, order kept.
pub open spec fn without(s: Seq<Player>, id: u64) -> Seq<Player> {
    s.filter(stays(id))
}

/// The mention forms of the players of `s`, in order.
pub open spec fn mentions_of(s: Seq<Player>) -> Seq<Seq<char>> {
    s.map_values(|p: Player| mention_text(p.id))
}

/// The display names of the players of `s`, in order.
pub open spec fn names_of(s: Seq<Player>) -> Seq<Seq<char>> {
    s.map_values(|p: Player| p.name@)
}

/// The reply when a game is asked to start with too few players.
pub open spec fn not_enough_text() -> Seq<char> {
    "We need at least 2 players."@
}

/// The announcement of a started game: a heading, the players' mentions in
/// order separated by ` | `, and a closing wish, one per line.
pub open spec fn announcement(s: Seq<Player>) -> Seq<char> {
    "Get ready for the game. Let me summon everyone:"@ + "\n"@
        + join(mentions_of(s), " | "@) + "\n"@
        + "Good luck & have fun!"@
}

/// The status of a waiting list: a fixed invitation when it is empty; else
/// the players' names in order separated by ` | `, and a hint to start once
/// there are enough of them.
pub open spec fn status_text(s: Seq<Player>) -> Seq<char> {
    if s.len() == 0 {
        "Nobody wants to play right now. Write `!add` to join."@
    } else {
        let listed = "Ready players:"@ + "\n"@ + join(names_of(s), " | "@);
        if s.len() >= MIN_PLAYERS {
            listed + "\n"@ + "Write `!play` to start the game."@
        } else {
            listed
        }
    }
}

/// The waiting list of one channel. Players keep the order in which they
/// joined, and no id appears twice.
pub struct Lobby {
    players: Vec<Player>,
}

impl View for Lobby {
    type V = Seq<Player>;

    closed spec fn view(&self) -> Seq<Player> {
        self.players@
    }
}

impl Lobby {
    #[verifier::type_invariant]
    closed spec fn inv(self) -> bool {
        ids_unique(self.players@)
    }

    /// An empty lobby.
    pub fn new() -> (r: Lobby)
        ensures
            r@ == Seq::<Player>::empty(),
    {
        Lobby { players: Vec::new() }
    }

    /// The number of waiting players.
    pub fn len(&self) -> (r: usize)
        ensures
            r == self@.len(),
    {
        self.players.len()
    }

    /// The waiting players, in the order in which they joined; no two of
    /// them share an id.
    pub fn players(&self) -> (r: &Vec<Player>)
        ensures
            r@ == self@,
            ids_unique(r@),
    {
        proof {
            use_type_invariant(self);
        }
        &self.players
    }

    /// Whether a player with id `id` is waiting.
    pub fn contains(&self, id: u64) -> (r: bool)
        ensures
            r == has_id(self@, id),
    {
        let mut i: usize = 0;
        while i < self.players.len()
            invariant
                i <= self.players@.len(),
                forall|k: int| 0 <= k < i ==> self.players@[k].id != id,
            decreases self.players@.len() - i,
        {
            if self.players[i].id == id {
                return true;
            }
            i += 1;
        }
        false
    }

    /// Adds `player` at the end unless a player with the same id is waiting.
    pub fn add(&mut self, player: Player)
        ensures
            final(self)@ == joined(old(self)@, player),
            ids_unique(final(self)@),
    {
        proof {
            use_type_invariant(&*self);
        }
        if !self.contains(player.id) {
            let mut ps: Vec<Player> = Vec::new();
            std::mem::swap(&mut ps, &mut self.players);
            ps.push(player);
            self.players = ps;
        }
        proof {
            use_type_invariant(&*self);
        }
    }

    /// Takes out every waiting player with the id of `player`; nothing
    /// changes when there is none.
    pub fn del(&mut self, player: &Player)
        ensures
            final(self)@ == without(old(self)@, player.id),
            ids_unique(final(self)@),
    {
        proof {
            use_type_invariant(&*self);
        }
        let id = player.id;
        let mut ps: Vec<Player> = Vec::new();
        std::mem::swap(&mut ps, &mut self.players);
        let ghost s = ps@;
        let mut kept: Vec<Player> = Vec::new();
        let mut i: usize = 0;
        while i < ps.len()
            invariant
                i <= ps@.len(),
                ps@ == s,
                ids_unique(s),
                kept@ == without(s.take(i as int), id),
                ids_unique(kept@),
                forall|k: int| 0 <= k < kept@.len() ==> exists|j: int| 0 <= j < i && s[j].id == #[trigger] kept@[k].id,
            decreases ps@.len() - i,
        {
            let ghost before = kept@;
            proof {
                reveal(Seq::filter);
                let next = s.take(i + 1);
                assert(next.drop_last() =~= s.take(i as int));
                assert(next.last() == s[i as int]);
                assert(without(next, id) == if s[i as int].id != id {
                    without(s.take(i as int), id).push(s[i as int])
                } else {
                    without(s.take(i as int), id)
                });
            }
            if ps[i].id != id {
                kept.push(ps[i].duplicate());
                proof {
                    assert forall|k: int| 0 <= k < before.len() implies kept@[k].id != s[i as int].id by {
                        let j = choose|j: int| 0 <= j < i && s[j].id == #[trigger] before[k].id;
                        assert(s[j].id == before[k].id);
                    }
                    assert forall|k: int| 0 <= k < kept@.len() implies exists|j: int| 0 <= j < i + 1 && s[j].id == #[trigger] kept@[k].id by {
                        if k < before.len() {
                            let j = choose|j: int| 0 <= j < i && s[j].id == #[trigger] before[k].id;
                            assert(s[j].id == kept@[k].id);
                        } else {
                            assert(s[i as int].id == kept@[k].id);
                        }
                    }
                }
            }
            i += 1;
        }
        proof {
            assert(s.take(s.len() as int) =~= s);
        }
        self.players = kept;
    }

    /// Starts a game. With fewer than `MIN_PLAYERS` waiting, nothing changes
    /// and the reply says so. Otherwise the lobby is emptied and the waiting
    /// players come back in joining order, with the announcement that
    /// mentions them.
    pub fn play(&mut self) -> (r: Result<(String, Vec<Player>), String>)
        ensures
            match r {
                Ok((text, players)) => {
                    &&& old(self)@.len() >= MIN_PLAYERS
                    &&& players@ == old(self)@
                    &&& text@ == announcement(old(self)@)
                    &&& final(self)@ == Seq::<Player>::empty()
                },
                Err(text) => {
                    &&& old(self)@.len() < MIN_PLAYERS
                    &&& text@ == not_enough_text()
                    &&& final(self)@ == old(self)@
                },
            },
    {
        if self.players.len() < MIN_PLAYERS {
            return Err(owned("We need at least 2 players."));
        }
        let mut mentions: Vec<String> = Vec::new();
        let mut i: usize = 0;
        while i < self.players.len()
            invariant
                i <= self.players@.len(),
                mentions@.len() == i,
                forall|k: int| 0 <= k < i ==> #[trigger] mentions@[k]@ == mention_text(self.players@[k].id),
            decreases self.players@.len() - i,
        {
            mentions.push(self.players[i].mention());
            i += 1;
        }
        proof {
            assert(texts(mentions@) =~= mentions_of(self.players@));
        }
        let mut text = owned("Get ready for the game. Let me summon everyone:");
        text.append("\n");
        let listed = join_texts(&mentions, " | ");
        text.append(listed.as_str());
        text.append("\n");
        text.append("Good luck & have fun!");
        let mut players: Vec<Player> = Vec::new();
        std::mem::swap(&mut players, &mut self.players);
        Ok((text, players))
    }

    /// The status of this lobby; nothing changes.
    pub fn status(&self) -> (r: String)
        ensures
            r@ == status_text(self@),
    {
        if self.players.len() == 0 {
            return owned("Nobody wants to play right now. Write `!add` to join.");
        }
        let mut names: Vec<String> = Vec::new();
        let mut i: usize = 0;
        while i < self.players.len()
            invariant
                i <= self.players@.len(),
                names@.len() == i,
                forall|k: int| 0 <= k < i ==> #[trigger] names@[k]@ == self.players@[k].name@,
            decreases self.players@.len() - i,
        {
            names.push(self.players[i].name.clone());
            i += 1;
        }
        proof {
            assert(texts(names@) =~= names_of(self.players@));
        }
        let mut text = owned("Ready players:");
        text.append("\n");
        let listed = join_texts(&names, " | ");
        text.append(listed.as_str());
        if self.players.len() >= MIN_PLAYERS {
            text.append("\n");
            text.append("Write `!play` to start the game.");
        }
        text
    }
}

/// One change of membership that a lobby command makes.
pub enum Membership {
    Join(Player),
    Leave(u64),
}

/// The waiting list after one change of membership.
pub open spec fn changed(s: Seq<Player>, c: Membership) -> Seq<Player> {
    match c {
        Membership::Join(p) => joined(s, p),
        Membership::Leave(id) => without(s, id),
    }
}

/// The waiting list after a run of changes, applied in order.
pub open spec fn after_changes(s: Seq<Player>, cs: Seq<Membership>) -> Seq<Player>
    decreases cs.len(),
{
    if cs.len() == 0 {
        s
    } else {
        changed(after_changes(s, cs.drop_last()), cs.last())
    }
}

/// Taking players out never makes two entries share an id.
pub proof fn lemma_without_unique(s: Seq<Player>, id: u64)
    requires
        ids_unique(s),
    ensures
        ids_unique(without(s, id)),
    decreases s.len(),
{
    reveal(Seq::filter);
    if s.len() > 0 {
        let rest = s.drop_last();
        assert(ids_unique(rest));
        lemma_without_unique(rest, id);
        let f = without(rest, id);
        if stays(id)(s.last()) {
            assert forall|k: int| 0 <= k < f.len() implies #[trigger] f[k].id != s.last().id by {
                assert(f.contains(f[k]));
                rest.lemma_filter_contains_rev(stays(id), f[k]);
                let j = choose|j: int| 0 <= j < rest.len() && rest[j] == f[k];
                assert(s[j] == f[k]);
            }
            assert(ids_unique(f.push(s.last())));
        }
    }
}

/// Adding a player never makes two entries share an id.
pub proof fn lemma_joined_unique(s: Seq<Player>, p: Player)
    requires
        ids_unique(s),
    ensures
        ids_unique(joined(s, p)),
{
    if !has_id(s, p.id) {
        assert forall|i: int, j: int|
            0 <= i < s.len() + 1 && 0 <= j < s.len() + 1 && i != j implies #[trigger] s.push(p)[i].id
            != #[trigger] s.push(p)[j].id by {
            if i == s.len() {
                assert(s[j].id != p.id);
            } else if j == s.len() {
                assert(s[i].id != p.id);
            }
        }
    }
}

/// Whatever run of joins and leaves a lobby goes through, no two of its
/// entries ever share an id.
pub proof fn lemma_membership_stays_unique(s: Seq<Player>, cs: Seq<Membership>)
    requires
        ids_unique(s),
    ensures
        ids_unique(after_changes(s, cs)),
    decreases cs.len(),
{
    if cs.len() > 0 {
        lemma_membership_stays_unique(s, cs.drop_last());
        let before = after_changes(s, cs.drop_last());
        match cs.last() {
            Membership::Join(p) => lemma_joined_unique(before, p),
            Membership::Leave(id) => lemma_without_unique(before, id),
        }
    }
}

/// Joining twice is joining once: the second join of the same id changes
/// nothing.
pub proof fn lemma_join_twice(s: Seq<Player>, p: Player)
    ensures
        joined(joined(s, p), p) == joined(s, p),
{
    if !has_id(s, p.id) {
        assert(s.push(p)[s.len() as int].id == p.id);
    }
}

/// Leaving a lobby that holds no player of that id changes nothing.
pub proof fn lemma_leave_absent(s: Seq<Player>, id: u64)
    requires
        !has_id(s, id),
    ensures
        without(s, id) == s,
    decreases s.len(),
{
    reveal(Seq::filter);
    if s.len() > 0 {
        let rest = s.drop_last();
        assert forall|i: int| 0 <= i < rest.len() implies rest[i].id != id by {
            assert(s[i].id != id);
        }
        lemma_leave_absent(rest, id);
        assert(s.last().id != id);
        assert(rest.push(s.last()) =~= s);
    }
}

} // verus!
