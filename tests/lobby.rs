use korova::{handle_builtin, help, parse_command, run_command, schedule, Builtin, Command, Event, Lobby, Player, Registry, CHECKUP_DELAY_SECS, MIN_PLAYERS};

fn alice() -> Player {
    Player::new(11, "Alice".to_string())
}

fn bob() -> Player {
    Player::new(22, "Bob".to_string())
}

fn carol() -> Player {
    Player::new(33, "Carol".to_string())
}

fn ids(lobby: &Lobby) -> Vec<u64> {
    lobby.players().iter().map(|p| p.id).collect()
}

fn event(author: Player, channel: u64, content: &str) -> Event {
    Event { author, channel, content: content.to_string() }
}

#[test]
fn duplicate_add_is_suppressed() {
    let mut lobby = Lobby::new();
    lobby.add(alice());
    lobby.add(alice());
    assert_eq!(lobby.len(), 1);
    assert_eq!(ids(&lobby), vec![11]);
}

#[test]
fn same_id_with_another_name_is_suppressed() {
    let mut lobby = Lobby::new();
    lobby.add(alice());
    lobby.add(Player::new(11, "Alicja".to_string()));
    assert_eq!(lobby.len(), 1);
    assert_eq!(lobby.players()[0].name, "Alice");
}

#[test]
fn add_keeps_insertion_order() {
    let mut lobby = Lobby::new();
    lobby.add(bob());
    lobby.add(alice());
    lobby.add(carol());
    assert_eq!(ids(&lobby), vec![22, 11, 33]);
}

#[test]
fn remove_absent_is_noop() {
    let mut lobby = Lobby::new();
    lobby.add(alice());
    lobby.add(bob());
    lobby.del(&carol());
    assert_eq!(ids(&lobby), vec![11, 22]);
    let mut empty = Lobby::new();
    empty.del(&alice());
    assert_eq!(empty.len(), 0);
}

#[test]
fn remove_keeps_order_of_the_rest() {
    let mut lobby = Lobby::new();
    lobby.add(alice());
    lobby.add(bob());
    lobby.add(carol());
    lobby.del(&bob());
    assert_eq!(ids(&lobby), vec![11, 33]);
    assert!(lobby.contains(11));
    assert!(!lobby.contains(22));
}

#[test]
fn start_with_one_player_refuses_and_keeps_lobby() {
    let mut lobby = Lobby::new();
    lobby.add(alice());
    assert_eq!(MIN_PLAYERS, 2);
    let r = lobby.play();
    assert_eq!(r.err(), Some("We need at least 2 players.".to_string()));
    assert_eq!(ids(&lobby), vec![11]);
}

#[test]
fn start_with_empty_lobby_refuses() {
    let mut lobby = Lobby::new();
    assert_eq!(lobby.play().err(), Some("We need at least 2 players.".to_string()));
    assert_eq!(lobby.len(), 0);
}

#[test]
fn start_announces_in_order_and_empties() {
    let mut lobby = Lobby::new();
    lobby.add(alice());
    lobby.add(bob());
    let (text, players) = lobby.play().ok().unwrap();
    assert_eq!(
        text,
        "Get ready for the game. Let me summon everyone:\n<@11> | <@22>\nGood luck & have fun!"
    );
    assert_eq!(players.iter().map(|p| p.id).collect::<Vec<_>>(), vec![11, 22]);
    assert_eq!(lobby.len(), 0);
    assert_eq!(lobby.status(), "Nobody wants to play right now. Write `!add` to join.");
}

#[test]
fn status_of_empty_lobby() {
    let lobby = Lobby::new();
    assert_eq!(lobby.status(), "Nobody wants to play right now. Write `!add` to join.");
}

#[test]
fn status_of_one_player_has_no_start_hint() {
    let mut lobby = Lobby::new();
    lobby.add(alice());
    assert_eq!(lobby.status(), "Ready players:\nAlice");
}

#[test]
fn status_of_full_lobby_has_start_hint() {
    let mut lobby = Lobby::new();
    lobby.add(alice());
    lobby.add(bob());
    assert_eq!(lobby.status(), "Ready players:\nAlice | Bob\nWrite `!play` to start the game.");
}

#[test]
fn status_does_not_mutate() {
    let mut lobby = Lobby::new();
    lobby.add(alice());
    lobby.add(bob());
    let first = lobby.status();
    for _ in 0..5 {
        assert_eq!(lobby.status(), first);
    }
    assert_eq!(ids(&lobby), vec![11, 22]);
}

#[test]
fn mention_is_id_in_brackets() {
    assert_eq!(alice().mention(), "<@11>");
    assert_eq!(Player::new(0, "Zero".to_string()).mention(), "<@0>");
    assert_eq!(Player::new(u64::MAX, "Max".to_string()).mention(), "<@18446744073709551615>");
}

#[test]
fn commands_are_exact_texts() {
    assert!(matches!(parse_command("!add"), Some(Command::Add)));
    assert!(matches!(parse_command("!del"), Some(Command::Del)));
    assert!(matches!(parse_command("!play"), Some(Command::Play)));
    assert!(matches!(parse_command("!status"), Some(Command::Status)));
    assert!(matches!(parse_command("!help"), Some(Command::Help)));
    assert!(parse_command("!add ").is_none());
    assert!(parse_command("add").is_none());
    assert!(parse_command("").is_none());
}

#[test]
fn help_lists_commands() {
    assert_eq!(
        help(),
        "Gather commands: `!add`, `!del`, `!play`, `!status`.\nFortune commands: `,_,` (sad), `!fortunka` (classic).\nMisc. commands: `!help`, `!code`, `!currency`, `!ping`, `!weather`, `!wymówka`."
    );
}

#[test]
fn run_command_add_then_play() {
    let mut lobby = Lobby::new();
    let r = run_command(&mut lobby, Command::Add, alice());
    assert_eq!(r.reply, "Ready players:\nAlice");
    assert!(r.started.is_none());
    let r = run_command(&mut lobby, Command::Play, alice());
    assert_eq!(r.reply, "We need at least 2 players.");
    assert!(r.started.is_none());
    run_command(&mut lobby, Command::Add, bob());
    let Builtin { reply, started } = run_command(&mut lobby, Command::Play, bob());
    assert!(reply.contains("<@11> | <@22>"));
    assert_eq!(started.unwrap().len(), 2);
    assert_eq!(lobby.len(), 0);
}

#[test]
fn registry_creates_lobby_on_first_reference() {
    let mut registry = Registry::new();
    assert!(!registry.contains(5));
    assert_eq!(registry.lobby(5).len(), 0);
    assert!(registry.contains(5));
    assert_eq!(registry.len(), 1);
}

#[test]
fn registry_returns_same_lobby_later() {
    let mut registry = Registry::new();
    registry.lobby(5).add(alice());
    registry.lobby(6).add(bob());
    registry.lobby(5).add(carol());
    assert_eq!(ids(registry.lobby(5)), vec![11, 33]);
    assert_eq!(ids(registry.lobby(6)), vec![22]);
    assert_eq!(registry.len(), 2);
}

#[test]
fn any_event_creates_the_channel_lobby() {
    let mut registry = Registry::new();
    let r = handle_builtin(&mut registry, &event(alice(), 9, "hello"));
    assert!(r.is_none());
    assert!(registry.contains(9));
    assert_eq!(registry.lobby(9).len(), 0);
}

#[test]
fn builtin_commands_through_registry() {
    let mut registry = Registry::new();
    let r = handle_builtin(&mut registry, &event(alice(), 1, "!add")).unwrap();
    assert_eq!(r.reply, "Ready players:\nAlice");
    let r = handle_builtin(&mut registry, &event(bob(), 1, "!add")).unwrap();
    assert_eq!(r.reply, "Ready players:\nAlice | Bob\nWrite `!play` to start the game.");
    let r = handle_builtin(&mut registry, &event(bob(), 2, "!status")).unwrap();
    assert_eq!(r.reply, "Nobody wants to play right now. Write `!add` to join.");
    let r = handle_builtin(&mut registry, &event(bob(), 1, "!del")).unwrap();
    assert_eq!(r.reply, "Ready players:\nAlice");
    let r = handle_builtin(&mut registry, &event(alice(), 1, "!play")).unwrap();
    assert_eq!(r.reply, "We need at least 2 players.");
    assert_eq!(ids(registry.lobby(1)), vec![11]);
}

#[test]
fn start_then_status_reports_nobody() {
    let mut registry = Registry::new();
    handle_builtin(&mut registry, &event(alice(), 1, "!add"));
    handle_builtin(&mut registry, &event(bob(), 1, "!add"));
    let r = handle_builtin(&mut registry, &event(alice(), 1, "!play")).unwrap();
    assert_eq!(
        r.reply,
        "Get ready for the game. Let me summon everyone:\n<@11> | <@22>\nGood luck & have fun!"
    );
    let players = r.started.unwrap();
    assert_eq!(players.iter().map(|p| p.name.clone()).collect::<Vec<_>>(), vec!["Alice", "Bob"]);
    let s = handle_builtin(&mut registry, &event(alice(), 1, "!status")).unwrap();
    assert_eq!(s.reply, "Nobody wants to play right now. Write `!add` to join.");
}

#[test]
fn reminder_keeps_start_snapshot() {
    let mut registry = Registry::new();
    handle_builtin(&mut registry, &event(alice(), 4, "!add"));
    handle_builtin(&mut registry, &event(bob(), 4, "!add"));
    let r = handle_builtin(&mut registry, &event(alice(), 4, "!play")).unwrap();
    let notice = schedule(4, r.started.unwrap());
    handle_builtin(&mut registry, &event(carol(), 4, "!add"));
    handle_builtin(&mut registry, &event(carol(), 4, "!del"));
    assert_eq!(notice.channel, 4);
    assert_eq!(notice.delay_secs, CHECKUP_DELAY_SECS);
    assert_eq!(CHECKUP_DELAY_SECS, 2 * 60 * 60);
    assert_eq!(notice.players.iter().map(|p| p.id).collect::<Vec<_>>(), vec![11, 22]);
    assert_eq!(
        notice.message,
        "Hey, hey! <@11>, <@22>, it has been 2 hours since you started playing! Remember to hydrate, take some rest, or possibly call it a day."
    );
    assert!(!notice.message.contains("<@33>"));
}
