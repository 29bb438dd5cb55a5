use crate::lobby::{after_changes, mentions_of, Membership};
use crate::lobby::MIN_PLAYERS;
use crate::player::Player;
use crate::router::{command_effect, Builtin, Command};
use crate::text::{join, join_texts, owned};
use vstd::prelude::*;
use vstd::string::*;

verus! {

/// How long after a game starts its players get a reminder, in seconds
/// (two hours).
pub const CHECKUP_DELAY_SECS: u64 = 7200;

/// The reminder sent to the players of a game once the delay is over: their
/// mentions separated by `, `, inside a fixed text.
pub open spec fn checkup_text(players: Seq<Player>) -> Seq<char> {
    "Hey, hey! "@ + join(mentions_of(players), ", "@)
        + ", it has been 2 hours since you started playing! Remember to hydrate, take some rest, or possibly call it a day."@
}

/// A follow-up message due once `delay_secs` have passed: where it goes,
/// the players it was made for (fixed when the game started), and its text.
/// It has no identity and cannot be cancelled.
pub struct Notification {
    pub channel: u64,
    pub players: Vec<Player>,
    pub delay_secs: u64,
    pub message: String,
}

/// The reminder for the players of a game started in `channel`. It keeps
/// its own copy of them: later changes to the channel's lobby do not reach
/// it.
pub fn schedule(channel: u64, players: Vec<Player>) -> (r: Notification)
    ensures
        r.channel == channel,
        r.players@ == players@,
        r.delay_secs == CHECKUP_DELAY_SECS,
        r.message@ == checkup_text(players@),
{
    let mut mentions: Vec<String> = Vec::new();
    let mut i: usize = 0;
    while i < players.len()
        invariant
            i <= players@.len(),
            mentions@.len() == i,
            forall|k: int| 0 <= k < i ==> #[trigger] mentions@[k]@ == crate::player::mention_text(players@[k].id),
        decreases players@.len() - i,
    {
        mentions.push(players[i].mention());
        i += 1;
    }
    proof {
        assert(crate::text::texts(mentions@) =~= mentions_of(players@));
    }
    let mut message = owned("Hey, hey! ");
    let listed = join_texts(&mentions, ", ");
    message.append(listed.as_str());
    message.append(
        ", it has been 2 hours since you started playing! Remember to hydrate, take some rest, or possibly call it a day.",
    );
    Notification { channel, players, delay_secs: CHECKUP_DELAY_SECS, message }
}

/// A reminder keeps the players of the moment its game started. When `!play`
/// starts a game on lobby `before` and the reminder is made from the players
/// it hands out, the reminder names exactly the players of `before`, in
/// order, whatever joins and leaves the emptied lobby goes through before the
/// delay is over.
pub proof fn lemma_reminder_keeps_snapshot(
    before: Seq<Player>,
    author: Player,
    after: Seq<Player>,
    out: Builtin,
    n: Notification,
    later: Seq<Membership>,
)
    requires
        before.len() >= MIN_PLAYERS,
        command_effect(before, Command::Play, author, after, out),
        n.players@ == out.started->Some_0@,
        n.message@ == checkup_text(n.players@),
    ensures
        after == Seq::<Player>::empty(),
        n.players@ == before,
        n.message@ == checkup_text(before),
        after_changes(after, later) == after_changes(Seq::<Player>::empty(), later),
{
}

} // verus!
