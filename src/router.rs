use crate::lobby::{announcement, joined, not_enough_text, status_text, without, Lobby, MIN_PLAYERS};
use crate::notifier::{checkup_text, schedule, Notification, CHECKUP_DELAY_SECS};
use crate::player::Player;
use crate::registry::Registry;
use crate::text::{owned, same_text, texts};
use vstd::prelude::*;
use vstd::string::*;

verus! {

/// One incoming chat message: who wrote it, in which channel, and its text.
pub struct Event {
    pub author: Player,
    pub channel: u64,
    pub content: String,
}

/// The built-in lobby commands.
pub enum Command {
    Add,
    Del,
    Play,
    Status,
    Help,
}

/// The built-in command that a message's exact text names, if any.
pub open spec fn command_of(text: Seq<char>) -> Option<Command> {
    if text == "!add"@ {
        Some(Command::Add)
    } else if text == "!del"@ {
        Some(Command::Del)
    } else if text == "!play"@ {
        Some(Command::Play)
    } else if text == "!status"@ {
        Some(Command::Status)
    } else if text == "!help"@ {
        Some(Command::Help)
    } else {
        None
    }
}

/// The list of commands that `!help` shows, one group per line.
pub open spec fn help_text() -> Seq<char> {
    "Gather commands: `!add`, `!del`, `!play`, `!status`."@ + "\n"@
        + "Fortune commands: `,_,` (sad), `!fortunka` (classic)."@ + "\n"@
        + "Misc. commands: `!help`, `!code`, `!currency`, `!ping`, `!weather`, `!wymówka`."@
}

/// What a built-in command answers, and the players of a game that it
/// started, if it started one.
pub struct Builtin {
    pub reply: String,
    pub started: Option<Vec<Player>>,
}

/// What command `cmd` of `author` does to a lobby whose players were
/// `before`: the players it leaves, `after`, and what it answers, `out`.
pub open spec fn command_effect(before: Seq<Player>, cmd: Command, author: Player, after: Seq<Player>, out: Builtin) -> bool {
    match cmd {
        Command::Add => {
            &&& after == joined(before, author)
            &&& out.reply@ == status_text(after)
            &&& out.started is None
        },
        Command::Del => {
            &&& after == without(before, author.id)
            &&& out.reply@ == status_text(after)
            &&& out.started is None
        },
        Command::Play => if before.len() >= MIN_PLAYERS {
            &&& after == Seq::<Player>::empty()
            &&& out.reply@ == announcement(before)
            &&& out.started is Some
            &&& out.started->Some_0@ == before
        } else {
            &&& after == before
            &&& out.reply@ == not_enough_text()
            &&& out.started is None
        },
        Command::Status => {
            &&& after == before
            &&& out.reply@ == status_text(before)
            &&& out.started is None
        },
        Command::Help => {
            &&& after == before
            &&& out.reply@ == help_text()
            &&& out.started is None
        },
    }
}

/// The players that channel `channel` has waiting in lobbies `m`; none when
/// it has no lobby yet.
pub open spec fn waiting(m: Map<u64, Lobby>, channel: u64) -> Seq<Player> {
    if m.contains_key(channel) {
        m[channel]@
    } else {
        Seq::empty()
    }
}

/// The built-in command that `text` names exactly, if any.
pub fn parse_command(text: &str) -> (r: Option<Command>)
    ensures
        r == command_of(text@),
{
    if same_text(text, "!add") {
        Some(Command::Add)
    } else if same_text(text, "!del") {
        Some(Command::Del)
    } else if same_text(text, "!play") {
        Some(Command::Play)
    } else if same_text(text, "!status") {
        Some(Command::Status)
    } else if same_text(text, "!help") {
        Some(Command::Help)
    } else {
        None
    }
}

/// The text that `!help` answers.
pub fn help() -> (r: String)
    ensures
        r@ == help_text(),
{
    let mut r = owned("Gather commands: `!add`, `!del`, `!play`, `!status`.");
    r.append("\n");
    r.append("Fortune commands: `,_,` (sad), `!fortunka` (classic).");
    r.append("\n");
    r.append("Misc. commands: `!help`, `!code`, `!currency`, `!ping`, `!weather`, `!wymówka`.");
    r
}

/// Carries out command `cmd` of `author` on `lobby`.
pub fn run_command(lobby: &mut Lobby, cmd: Command, author: Player) -> (r: Builtin)
    ensures
        command_effect(old(lobby)@, cmd, author, final(lobby)@, r),
{
    match cmd {
        Command::Add => {
            lobby.add(author);
            Builtin { reply: lobby.status(), started: None }
        },
        Command::Del => {
            lobby.del(&author);
            Builtin { reply: lobby.status(), started: None }
        },
        Command::Play => match lobby.play() {
            Ok((text, players)) => Builtin { reply: text, started: Some(players) },
            Err(text) => Builtin { reply: text, started: None },
        },
        Command::Status => Builtin { reply: lobby.status(), started: None },
        Command::Help => Builtin { reply: help(), started: None },
    }
}

/// Handles the built-in part of one event: the event's channel gets its
/// lobby (made on first reference), and when the text names a built-in
/// command, that command runs on it and its answer comes back.
pub fn handle_builtin(registry: &mut Registry, event: &Event) -> (r: Option<Builtin>)
    ensures
        final(registry)@.contains_key(event.channel),
        final(registry)@ == old(registry)@.insert(event.channel, final(registry)@[event.channel]),
        match command_of(event.content@) {
            None => {
                &&& r is None
                &&& final(registry)@[event.channel]@ == waiting(old(registry)@, event.channel)
            },
            Some(cmd) => {
                &&& r is Some
                &&& command_effect(
                    waiting(old(registry)@, event.channel),
                    cmd,
                    event.author,
                    final(registry)@[event.channel]@,
                    r->Some_0,
                )
            },
        },
{
    let lobby = registry.lobby(event.channel);
    match parse_command(event.content.as_str()) {
        None => None,
        Some(cmd) => Some(run_command(lobby, cmd, event.author.duplicate())),
    }
}

/// The text of a reply that may be missing.
pub open spec fn opt_text(o: Option<String>) -> Option<Seq<char>> {
    match o {
        Some(s) => Some(s@),
        None => None,
    }
}

/// The messages that go out for one event, in order: the built-in answer
/// first, when there is one, then each responder's answer in the order the
/// responders are registered, skipping those that did not answer.
pub open spec fn staged(builtin: Option<Seq<char>>, replies: Seq<Option<Seq<char>>>) -> Seq<Seq<char>> {
    let first = match builtin {
        Some(b) => seq![b],
        None => Seq::<Seq<char>>::empty(),
    };
    first + replies.filter_map(kept())
}

/// A responder's answer, kept when present.
pub open spec fn kept() -> spec_fn(Option<Seq<char>>) -> Option<Seq<char>> {
    |o: Option<Seq<char>>| o
}

/// How many of `replies` hold an answer.
pub open spec fn answered(replies: Seq<Option<Seq<char>>>) -> nat
    decreases replies.len(),
{
    if replies.len() == 0 {
        0
    } else {
        answered(replies.drop_last()) + if replies.last() is Some { 1nat } else { 0nat }
    }
}

/// Orders the messages of one event: the built-in answer, if any, then the
/// responders' answers in registration order.
pub fn route(builtin: Option<String>, replies: &Vec<Option<String>>) -> (r: Vec<String>)
    ensures
        texts(r@) == staged(opt_text(builtin), replies@.map_values(|o: Option<String>| opt_text(o))),
{
    let ghost rs = replies@.map_values(|o: Option<String>| opt_text(o));
    let ghost first = match opt_text(builtin) {
        Some(b) => seq![b],
        None => Seq::<Seq<char>>::empty(),
    };
    let mut out: Vec<String> = Vec::new();
    match builtin {
        Some(b) => out.push(b),
        None => {},
    }
    proof {
        assert(texts(out@) =~= first);
        assert(rs.take(0).filter_map(kept()) =~= Seq::<Seq<char>>::empty());
    }
    let mut i: usize = 0;
    while i < replies.len()
        invariant
            i <= replies@.len(),
            rs == replies@.map_values(|o: Option<String>| opt_text(o)),
            texts(out@) == first + rs.take(i as int).filter_map(kept()),
        decreases replies@.len() - i,
    {
        let ghost before = out@;
        match &replies[i] {
            Some(s) => out.push(s.clone()),
            None => {},
        }
        proof {
            rs.lemma_filter_map_take_succ(kept(), i as int);
            assert(rs[i as int] == opt_text(replies@[i as int]));
            let prefix = first + rs.take(i as int).filter_map(kept());
            assert(texts(before) == prefix);
            if replies@[i as int] is Some {
                assert(texts(out@) =~= texts(before).push(replies@[i as int]->Some_0@));
            } else {
                assert(out@ == before);
            }
            assert(texts(out@) =~= first + rs.take(i + 1).filter_map(kept()));
        }
        i += 1;
    }
    proof {
        assert(rs.take(replies@.len() as int) =~= rs);
    }
    out
}

/// Given responders of which some answered an event, the event sends
/// exactly one message per answering responder plus one for the built-in
/// answer, if any: the built-in answer first, then the responders' answers
/// in registration order.
pub proof fn lemma_staged_count(builtin: Option<Seq<char>>, replies: Seq<Option<Seq<char>>>)
    ensures
        staged(builtin, replies).len() == answered(replies) + if builtin is Some { 1nat } else { 0nat },
        builtin is Some ==> staged(builtin, replies)[0] == builtin->Some_0,
        staged(builtin, replies).subrange(if builtin is Some { 1 } else { 0 }, staged(builtin, replies).len() as int)
            == replies.filter_map(kept()),
    decreases replies.len(),
{
    lemma_answered_len(replies);
    let s = staged(builtin, replies);
    let k: int = if builtin is Some { 1 } else { 0 };
    assert(s.subrange(k, s.len() as int) =~= replies.filter_map(kept()));
}

/// The answering responders are as many as the answers kept.
proof fn lemma_answered_len(replies: Seq<Option<Seq<char>>>)
    ensures
        replies.filter_map(kept()).len() == answered(replies),
    decreases replies.len(),
{
    if replies.len() > 0 {
        lemma_answered_len(replies.drop_last());
    }
}

/// What one event finally sends and schedules: the messages in their order
/// (built-in answer first, then the responders' answers in registration
/// order) and, when the built-in command started a game, the reminder for
/// its players in `channel`.
pub fn conclude(channel: u64, builtin: Option<Builtin>, replies: &Vec<Option<String>>) -> (r: (
    Vec<String>,
    Option<Notification>,
))
    ensures
        texts(r.0@) == staged(
            match builtin {
                Some(b) => Some(b.reply@),
                None => None,
            },
            replies@.map_values(|o: Option<String>| opt_text(o)),
        ),
        r.1 is Some <==> (builtin is Some && builtin->Some_0.started is Some),
        r.1 is Some ==> {
            let n = r.1->Some_0;
            let players = builtin->Some_0.started->Some_0@;
            &&& n.channel == channel
            &&& n.players@ == players
            &&& n.delay_secs == CHECKUP_DELAY_SECS
            &&& n.message@ == checkup_text(players)
        },
{
    match builtin {
        None => (route(None, replies), None),
        Some(b) => {
            let reply = b.reply;
            let notice = match b.started {
                Some(players) => Some(schedule(channel, players)),
                None => None,
            };
            (route(Some(reply), replies), notice)
        },
    }
}

} // verus!
