use crate::player::mention_text;
use crate::router::Event;
use crate::text::{after_prefix, begins_with, owned, same_text};
use vstd::prelude::*;
use vstd::string::*;

verus! {

/// A place whose weather a responder reports: its name and country code, as
/// the weather service looks them up, and the phrase "in <place>" used in
/// the reply.
#[derive(Clone, Copy)]
pub struct City {
    pub name: &'static str,
    pub name_locative: &'static str,
    pub country_code: &'static str,
}

/// What a responder wants done about an event it reacts to.
pub enum Step {
    /// Answer with this text.
    Say(String),
    /// Answer with a random fortune of `term` from the fortune store, or
    /// with `fallback` when none can be had.
    LookUpFortune { term: String, fallback: String },
    /// Store `text` as a fortune of `term`, then say whether that worked.
    StoreFortune { term: String, text: String },
    /// Answer with the current weather in this city.
    LookUpWeather(City),
    /// Answer with the current exchange rates.
    LookUpRates,
    /// Answer with a random line of this program's source.
    PickCodeLine,
}

/// The model of a `Step`: the same requests, with texts as character
/// sequences.
pub enum Task {
    Say(Seq<char>),
    LookUpFortune(Seq<char>, Seq<char>),
    StoreFortune(Seq<char>, Seq<char>),
    LookUpWeather(City),
    LookUpRates,
    PickCodeLine,
}

impl View for Step {
    type V = Task;

    open spec fn view(&self) -> Task {
        match self {
            Step::Say(s) => Task::Say(s@),
            Step::LookUpFortune { term, fallback } => Task::LookUpFortune(term@, fallback@),
            Step::StoreFortune { term, text } => Task::StoreFortune(term@, text@),
            Step::LookUpWeather(c) => Task::LookUpWeather(*c),
            Step::LookUpRates => Task::LookUpRates,
            Step::PickCodeLine => Task::PickCodeLine,
        }
    }
}

/// The model of a responder's answer to an event.
pub open spec fn reaction_of(r: Option<Step>) -> Option<Task> {
    match r {
        Some(s) => Some(s@),
        None => None,
    }
}

/// A responder: given an incoming event, it either ignores it or says what
/// to do about it. Responders know nothing of each other and never touch a
/// lobby.
pub trait Plugin {
    /// What this responder does about a message with text `content` from
    /// the user with id `author`.
    spec fn reaction(&self, content: Seq<char>, author: u64) -> Option<Task>;

    fn handle(&self, event: &Event) -> (r: Option<Step>)
        ensures
            reaction_of(r) == self.reaction(event.content@, event.author.id),
    ;
}

/// Answers `!ping` with a pong that mentions the sender.
pub struct PingPlugin;

/// The pong for the user with id `author`.
pub open spec fn pong_text(author: u64) -> Seq<char> {
    "Pong, "@ + mention_text(author) + "."@
}

impl Plugin for PingPlugin {
    open spec fn reaction(&self, content: Seq<char>, author: u64) -> Option<Task> {
        if content == "!ping"@ {
            Some(Task::Say(pong_text(author)))
        } else {
            None
        }
    }

    fn handle(&self, event: &Event) -> (r: Option<Step>) {
        if same_text(event.content.as_str(), "!ping") {
            let mut text = owned("Pong, ");
            let mention = event.author.mention();
            text.append(mention.as_str());
            text.append(".");
            Some(Step::Say(text))
        } else {
            None
        }
    }
}

/// The fortune term under which excuses are stored.
pub open spec fn excuse_term() -> Seq<char> {
    "wymówka"@
}

/// The answer when no excuse can be had.
pub open spec fn no_excuse_text() -> Seq<char> {
    "Dziwne, nie znalazłem żadnej wymówki. Pewnie Necior coś popsuł."@
}

/// Answers `!w` and `!wymówka` with a random excuse from the fortune store.
pub struct ExcusePlugin;

impl Plugin for ExcusePlugin {
    open spec fn reaction(&self, content: Seq<char>, author: u64) -> Option<Task> {
        if content == "!w"@ || content == "!wymówka"@ {
            Some(Task::LookUpFortune(excuse_term(), no_excuse_text()))
        } else {
            None
        }
    }

    fn handle(&self, event: &Event) -> (r: Option<Step>) {
        let content = event.content.as_str();
        if same_text(content, "!w") || same_text(content, "!wymówka") {
            Some(
                Step::LookUpFortune {
                    term: owned("wymówka"),
                    fallback: owned("Dziwne, nie znalazłem żadnej wymówki. Pewnie Necior coś popsuł."),
                },
            )
        } else {
            None
        }
    }
}

/// Answers `!pogoda` and `!weather` with the current weather in its city.
pub struct WeatherPlugin {
    pub city: City,
}

impl Plugin for WeatherPlugin {
    open spec fn reaction(&self, content: Seq<char>, author: u64) -> Option<Task> {
        if content == "!pogoda"@ || content == "!weather"@ {
            Some(Task::LookUpWeather(self.city))
        } else {
            None
        }
    }

    fn handle(&self, event: &Event) -> (r: Option<Step>) {
        let content = event.content.as_str();
        if same_text(content, "!pogoda") || same_text(content, "!weather") {
            Some(Step::LookUpWeather(self.city))
        } else {
            None
        }
    }
}

/// Answers any of its trigger texts with a random fortune of its term, or
/// with its error message when none can be had.
pub struct FortunePlugin {
    pub term: &'static str,
    pub triggers: Vec<&'static str>,
    pub error_msg: &'static str,
}

/// Whether `content` is exactly one of `triggers`.
pub open spec fn is_trigger(triggers: Seq<&'static str>, content: Seq<char>) -> bool {
    exists|i: int| 0 <= i < triggers.len() && triggers[i]@ == content
}

impl Plugin for FortunePlugin {
    open spec fn reaction(&self, content: Seq<char>, author: u64) -> Option<Task> {
        if is_trigger(self.triggers@, content) {
            Some(Task::LookUpFortune(self.term@, self.error_msg@))
        } else {
            None
        }
    }

    fn handle(&self, event: &Event) -> (r: Option<Step>) {
        let content = event.content.as_str();
        let mut i: usize = 0;
        while i < self.triggers.len()
            invariant
                i <= self.triggers@.len(),
                content@ == event.content@,
                forall|k: int| 0 <= k < i ==> self.triggers@[k]@ != content@,
            decreases self.triggers@.len() - i,
        {
            if same_text(self.triggers[i], content) {
                return Some(Step::LookUpFortune { term: owned(self.term), fallback: owned(self.error_msg) });
            }
            i += 1;
        }
        None
    }
}

/// The fortune term under which sad fortunes are stored.
pub open spec fn sad_term() -> Seq<char> {
    ",_,"@
}

/// The answer to an attempt to store an empty fortune.
pub open spec fn empty_fortune_text() -> Seq<char> {
    "Pustej nie dodaję."@
}

/// Stores the text after its trigger prefix as a new sad fortune; an empty
/// text is refused with a fixed answer.
pub struct SadFortuneAdderPlugin {
    pub trigger: &'static str,
}

impl Plugin for SadFortuneAdderPlugin {
    open spec fn reaction(&self, content: Seq<char>, author: u64) -> Option<Task> {
        if begins_with(content, self.trigger@) {
            let text = content.subrange(self.trigger@.len() as int, content.len() as int);
            if text.len() == 0 {
                Some(Task::Say(empty_fortune_text()))
            } else {
                Some(Task::StoreFortune(sad_term(), text))
            }
        } else {
            None
        }
    }

    fn handle(&self, event: &Event) -> (r: Option<Step>) {
        match after_prefix(event.content.as_str(), self.trigger) {
            None => None,
            Some(text) => {
                if text.unicode_len() == 0 {
                    Some(Step::Say(owned("Pustej nie dodaję.")))
                } else {
                    Some(Step::StoreFortune { term: owned(",_,"), text: owned(text) })
                }
            },
        }
    }
}

/// Answers `!currency` with the current exchange rates of the zloty.
pub struct CurrencyPlugin;

impl Plugin for CurrencyPlugin {
    open spec fn reaction(&self, content: Seq<char>, author: u64) -> Option<Task> {
        if content == "!currency"@ {
            Some(Task::LookUpRates)
        } else {
            None
        }
    }

    fn handle(&self, event: &Event) -> (r: Option<Step>) {
        if same_text(event.content.as_str(), "!currency") {
            Some(Step::LookUpRates)
        } else {
            None
        }
    }
}

/// Answers `!code` with a random line of this program's source.
pub struct RandomSourceCodeLinePlugin;

impl Plugin for RandomSourceCodeLinePlugin {
    open spec fn reaction(&self, content: Seq<char>, author: u64) -> Option<Task> {
        if content == "!code"@ {
            Some(Task::PickCodeLine)
        } else {
            None
        }
    }

    fn handle(&self, event: &Event) -> (r: Option<Step>) {
        if same_text(event.content.as_str(), "!code") {
            Some(Step::PickCodeLine)
        } else {
            None
        }
    }
}

/// One registered responder, of any kind.
pub enum Responder {
    Ping(PingPlugin),
    Excuse(ExcusePlugin),
    Weather(WeatherPlugin),
    Fortune(FortunePlugin),
    FortuneAdder(SadFortuneAdderPlugin),
    Currency(CurrencyPlugin),
    Code(RandomSourceCodeLinePlugin),
}

impl Plugin for Responder {
    open spec fn reaction(&self, content: Seq<char>, author: u64) -> Option<Task> {
        match self {
            Responder::Ping(p) => p.reaction(content, author),
            Responder::Excuse(p) => p.reaction(content, author),
            Responder::Weather(p) => p.reaction(content, author),
            Responder::Fortune(p) => p.reaction(content, author),
            Responder::FortuneAdder(p) => p.reaction(content, author),
            Responder::Currency(p) => p.reaction(content, author),
            Responder::Code(p) => p.reaction(content, author),
        }
    }

    fn handle(&self, event: &Event) -> (r: Option<Step>) {
        match self {
            Responder::Ping(p) => p.handle(event),
            Responder::Excuse(p) => p.handle(event),
            Responder::Weather(p) => p.handle(event),
            Responder::Fortune(p) => p.handle(event),
            Responder::FortuneAdder(p) => p.handle(event),
            Responder::Currency(p) => p.handle(event),
            Responder::Code(p) => p.handle(event),
        }
    }
}

/// Whether `f` is a fortune responder for `term` with the given triggers
/// and error message.
pub open spec fn fortune_config(f: FortunePlugin, term: &'static str, triggers: Seq<&'static str>, error_msg: &'static str) -> bool {
    f.term == term && f.triggers@ =~= triggers && f.error_msg == error_msg
}

/// The responders of the bot, in the order in which their answers are sent.
pub fn registered() -> (r: Vec<Responder>)
    ensures
        r@.len() == 9,
        r@[0] is Ping,
        r@[1] is Excuse,
        r@[2] == Responder::Weather(
            WeatherPlugin { city: City { name: "Warsaw", name_locative: "w Warszawie", country_code: "PL" } },
        ),
        r@[3] == Responder::Weather(
            WeatherPlugin { city: City { name: "Dublin", name_locative: "w Dublinie", country_code: "IE" } },
        ),
        r@[4] is Fortune && fortune_config(r@[4]->Fortune_0, ",_,", seq![",_,"], "Neeeciooor! Coś się popsuło (╯°□°）╯︵ ┻━┻"),
        r@[5] is Fortune && fortune_config(r@[5]->Fortune_0, "fortunka", seq!["!fortunka", "!f"], "Nie ma fortunek, bo są błędy"),
        r@[6] == Responder::FortuneAdder(SadFortuneAdderPlugin { trigger: "!dodaj ,_, " }),
        r@[7] is Currency,
        r@[8] is Code,
{
    let mut r: Vec<Responder> = Vec::new();
    r.push(Responder::Ping(PingPlugin));
    r.push(Responder::Excuse(ExcusePlugin));
    r.push(
        Responder::Weather(
            WeatherPlugin { city: City { name: "Warsaw", name_locative: "w Warszawie", country_code: "PL" } },
        ),
    );
    r.push(
        Responder::Weather(
            WeatherPlugin { city: City { name: "Dublin", name_locative: "w Dublinie", country_code: "IE" } },
        ),
    );
    r.push(
        Responder::Fortune(
            FortunePlugin {
                term: ",_,",
                triggers: vec![",_,"],
                error_msg: "Neeeciooor! Coś się popsuło (╯°□°）╯︵ ┻━┻",
            },
        ),
    );
    r.push(
        Responder::Fortune(
            FortunePlugin {
                term: "fortunka",
                triggers: vec!["!fortunka", "!f"],
                error_msg: "Nie ma fortunek, bo są błędy",
            },
        ),
    );
    r.push(Responder::FortuneAdder(SadFortuneAdderPlugin { trigger: "!dodaj ,_, " }));
    r.push(Responder::Currency(CurrencyPlugin));
    r.push(Responder::Code(RandomSourceCodeLinePlugin));
    r
}

/// Asks every responder, in order, what it does about `event`. Each decides
/// on its own; all of them are asked, not only up to the first that reacts.
pub fn reactions(responders: &Vec<Responder>, event: &Event) -> (r: Vec<Option<Step>>)
    ensures
        r@.len() == responders@.len(),
        forall|i: int|
            0 <= i < r@.len() ==> reaction_of(#[trigger] r@[i]) == responders@[i].reaction(
                event.content@,
                event.author.id,
            ),
{
    let mut r: Vec<Option<Step>> = Vec::new();
    let mut i: usize = 0;
    while i < responders.len()
        invariant
            i <= responders@.len(),
            r@.len() == i,
            forall|k: int|
                0 <= k < i ==> reaction_of(#[trigger] r@[k]) == responders@[k].reaction(
                    event.content@,
                    event.author.id,
                ),
        decreases responders@.len() - i,
    {
        r.push(responders[i].handle(event));
        i += 1;
    }
    r
}

} // verus!
