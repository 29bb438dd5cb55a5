//! Command logic of a small chat bot: per-channel lobbies of players, a
//! registry of lobbies keyed by channel, routing of one incoming event to the
//! built-in lobby commands and to independent responders, and the delayed
//! follow-up notice that a started game schedules.

mod lobby;
mod notifier;
mod player;
mod registry;
mod replies;
mod responders;
mod router;
mod text;

pub use lobby::{Lobby, Membership, MIN_PLAYERS};
pub use notifier::{schedule, Notification, CHECKUP_DELAY_SECS};
pub use player::Player;
pub use registry::Registry;
pub use replies::{
    code_reply, fortune_reply, rates_failure, rates_report, source_lines, stored_reply, weather_failure,
    weather_report, weather_without_key,
};
pub use responders::{
    reactions, registered, City, CurrencyPlugin, ExcusePlugin, FortunePlugin, PingPlugin, Plugin,
    RandomSourceCodeLinePlugin, Responder, SadFortuneAdderPlugin, Step, WeatherPlugin,
};
pub use router::{conclude, handle_builtin, help, parse_command, route, run_command, Builtin, Command, Event};
pub use text::join_texts;
