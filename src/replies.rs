use crate::responders::City;
use crate::text::owned;
use rand::seq::SliceRandom;
use vstd::prelude::*;
use vstd::string::*;
use vstd::utf8::encode_utf8;

verus! {

/// The answer to a fortune look-up: the fortune found, or `fallback`.
pub fn fortune_reply(found: Option<String>, fallback: String) -> (r: String)
    ensures
        r@ == match found {
            Some(f) => f@,
            None => fallback@,
        },
{
    match found {
        Some(f) => f,
        None => fallback,
    }
}

/// The answer once a new fortune was stored.
pub open spec fn stored_text() -> Seq<char> {
    "Dodane :)"@
}

/// The answer when a new fortune could not be stored.
pub open spec fn store_failed_text() -> Seq<char> {
    "Coś spadło z rowerka, szukaj kaczki do debuggowania."@
}

/// The answer to storing a fortune, by whether it was stored.
pub fn stored_reply(stored: bool) -> (r: String)
    ensures
        r@ == if stored { stored_text() } else { store_failed_text() },
{
    if stored {
        owned("Dodane :)")
    } else {
        owned("Coś spadło z rowerka, szukaj kaczki do debuggowania.")
    }
}

/// The weather report for `city`: the description, the temperature in
/// degrees Celsius and the pressure in hectopascals, each given in decimal.
pub open spec fn weather_text(city: City, description: Seq<char>, temperature: Seq<char>, pressure: Seq<char>) -> Seq<char> {
    "Pogoda "@ + city.name_locative@ + ": "@ + description + ", "@ + temperature + "°C"@ + ", "@ + pressure
        + " hPa"@ + "."@
}

/// Builds the weather report for `city`.
pub fn weather_report(city: &City, description: &str, temperature: &str, pressure: &str) -> (r: String)
    ensures
        r@ == weather_text(*city, description@, temperature@, pressure@),
{
    let mut r = owned("Pogoda ");
    r.append(city.name_locative);
    r.append(": ");
    r.append(description);
    r.append(", ");
    r.append(temperature);
    r.append("°C");
    r.append(", ");
    r.append(pressure);
    r.append(" hPa");
    r.append(".");
    r
}

/// The answer when the weather service failed, with its error for the
/// curious.
pub open spec fn weather_failure_text(detail: Seq<char>) -> Seq<char> {
    "Coś się, coś się popsuło i nie było mnie słychać… (Informacja dla nerdów: "@ + detail + ".)"@
}

/// Builds the answer for a failed weather look-up.
pub fn weather_failure(detail: &str) -> (r: String)
    ensures
        r@ == weather_failure_text(detail@),
{
    let mut r = owned("Coś się, coś się popsuło i nie było mnie słychać… (Informacja dla nerdów: ");
    r.append(detail);
    r.append(".)");
    r
}

/// The answer when no key for the weather service is configured.
pub open spec fn weather_without_key_text() -> Seq<char> {
    "*chlip* *chlip*, jak mam sprawdzić pogodę, jeśli nie mam klucza do API?"@
}

/// Builds the answer for a weather look-up without a key.
pub fn weather_without_key() -> (r: String)
    ensures
        r@ == weather_without_key_text(),
{
    owned("*chlip* *chlip*, jak mam sprawdzić pogodę, jeśli nie mam klucza do API?")
}

/// The exchange-rate summary: the zloty prices of a euro and of a dollar.
pub open spec fn rates_text(eur: Seq<char>, usd: Seq<char>) -> Seq<char> {
    "**Currency exchange rates**"@ + "\n"@ + "EURPLN ≈ "@ + eur + "\n"@ + "USDPLN ≈ "@ + usd
}

/// Builds the exchange-rate summary from the two prices, given in decimal.
pub fn rates_report(eur: &str, usd: &str) -> (r: String)
    ensures
        r@ == rates_text(eur@, usd@),
{
    let mut r = owned("**Currency exchange rates**");
    r.append("\n");
    r.append("EURPLN ≈ ");
    r.append(eur);
    r.append("\n");
    r.append("USDPLN ≈ ");
    r.append(usd);
    r
}

/// The answer when the exchange-rate service failed.
pub open spec fn rates_failure_text(detail: Seq<char>) -> Seq<char> {
    "Error: "@ + detail
}

/// Builds the answer for a failed exchange-rate look-up.
pub fn rates_failure(detail: &str) -> (r: String)
    ensures
        r@ == rates_failure_text(detail@),
{
    let mut r = owned("Error: ");
    r.append(detail);
    r
}

/// The lines of a text, as `str::lines` splits it.
pub uninterp spec fn lines_of(s: Seq<char>) -> Seq<Seq<char>>;

/// Relies on `str::lines`: the lines of `s`, in order, each without its
/// line ending.
#[verifier::external_body]
fn split_lines(s: &str) -> (r: Vec<String>)
    ensures
        crate::text::texts(r@) == lines_of(s@),
{
    s.lines().map(|l| l.to_string()).collect()
}

/// A text without its leading and trailing whitespace, as `str::trim` cuts it.
pub uninterp spec fn trimmed(s: Seq<char>) -> Seq<char>;

/// Relies on `str::trim`: `s` without leading and trailing whitespace.
#[verifier::external_body]
fn trim(s: &str) -> (r: &str)
    ensures
        r@ == trimmed(s@),
{
    s.trim()
}

/// Whether a source line is worth showing: more than 15 bytes are left of it
/// once it is trimmed.
pub open spec fn worth_showing(line: Seq<char>) -> bool {
    encode_utf8(trimmed(line)).len() > 15
}

/// The test for lines worth showing.
pub open spec fn showable() -> spec_fn(Seq<char>) -> bool {
    |l: Seq<char>| worth_showing(l)
}

/// The lines of `source` that are worth showing, in order.
pub open spec fn code_lines(source: Seq<char>) -> Seq<Seq<char>> {
    lines_of(source).filter(showable())
}

/// A code line set off as a block.
pub open spec fn code_block(line: Seq<char>) -> Seq<char> {
    "```\n"@ + line + "```"@
}

/// Relies on rand's `SliceRandom::choose` with the thread-local generator:
/// `None` for an empty list, otherwise some element of it.
#[verifier::external_body]
fn choose_one(items: &Vec<String>) -> (r: Option<String>)
    ensures
        r is None <==> items@.len() == 0,
        r is Some ==> exists|i: int| 0 <= i < items@.len() && items@[i]@ == r->Some_0@,
{
    items.choose(&mut rand::thread_rng()).cloned()
}

/// The lines of `source` worth showing, in order.
pub fn source_lines(source: &str) -> (r: Vec<String>)
    ensures
        crate::text::texts(r@) == code_lines(source@),
{
    let lines = split_lines(source);
    let ghost all = crate::text::texts(lines@);
    let mut r: Vec<String> = Vec::new();
    let mut i: usize = 0;
    while i < lines.len()
        invariant
            i <= lines@.len(),
            all == crate::text::texts(lines@),
            all == lines_of(source@),
            crate::text::texts(r@) == all.take(i as int).filter(showable()),
        decreases lines@.len() - i,
    {
        let ghost before = r@;
        let t = trim(lines[i].as_str());
        let size = t.as_bytes().len();
        if size > 15 {
            r.push(lines[i].clone());
        }
        proof {
            reveal(Seq::filter);
            let next = all.take(i + 1);
            assert(next.drop_last() =~= all.take(i as int));
            assert(next.last() == lines@[i as int]@);
            assert(t.spec_bytes() == encode_utf8(trimmed(lines@[i as int]@)));
            assert((size > 15) == worth_showing(lines@[i as int]@));
            if size > 15 {
                assert(crate::text::texts(r@) =~= crate::text::texts(before).push(lines@[i as int]@));
            } else {
                assert(r@ == before);
            }
        }
        i += 1;
    }
    proof {
        assert(all.take(lines@.len() as int) =~= all);
    }
    r
}

/// A random line of `source` worth showing, set off as a code block; `None`
/// when no line is worth showing.
pub fn code_reply(source: &str) -> (r: Option<String>)
    ensures
        r is None <==> code_lines(source@).len() == 0,
        r is Some ==> exists|i: int| 0 <= i < code_lines(source@).len() && r->Some_0@ == code_block(code_lines(source@)[i]),
{
    let lines = source_lines(source);
    match choose_one(&lines) {
        None => None,
        Some(line) => {
            let ghost i = choose|i: int| 0 <= i < lines@.len() && lines@[i]@ == line@;
            let mut r = owned("```\n");
            r.append(line.as_str());
            r.append("```");
            proof {
                assert(crate::text::texts(lines@)[i] == line@);
            }
            Some(r)
        },
    }
}

} // verus!
