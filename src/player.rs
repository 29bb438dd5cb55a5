use serenity::model::id::UserId;
use serenity::model::misc::Mentionable;
use vstd::prelude::*;

verus! {

/// A chat user as the lobby sees it: an opaque unique id and a display name.
/// Two players are the same participant exactly when their ids are equal.
pub struct Player {
    pub id: u64,
    pub name: String,
}

/// The decimal digit for a value below ten.
pub open spec fn digit_char(d: nat) -> char {
    if d == 0 { '0' }
    else if d == 1 { '1' }
    else if d == 2 { '2' }
    else if d == 3 { '3' }
    else if d == 4 { '4' }
    else if d == 5 { '5' }
    else if d == 6 { '6' }
    else if d == 7 { '7' }
    else if d == 8 { '8' }
    else { '9' }
}

/// A natural number written in decimal, without leading zeros.
pub open spec fn decimal(n: nat) -> Seq<char>
    decreases n,
{
    if n < 10 {
        seq![digit_char(n)]
    } else {
        decimal(n / 10).push(digit_char(n % 10))
    }
}

/// The text that makes the chat service mention (notify) user `id`: `<@id>`.
pub open spec fn mention_text(id: u64) -> Seq<char> {
    seq!['<', '@'] + decimal(id as nat) + seq!['>']
}

/// Relies on serenity's `Mentionable::mention` for a `UserId` and the
/// `Display` of the resulting `Mention`, which writes `<@{}>` around the id's
/// decimal form.
#[verifier::external_body]
fn user_mention(id: u64) -> (r: String)
    ensures
        r@ == mention_text(id),
{
    UserId(id).mention().to_string()
}

impl Player {
    pub fn new(id: u64, name: String) -> (r: Player)
        ensures
            r.id == id,
            r.name == name,
    {
        Player { id, name }
    }

    /// A copy of this player.
    pub fn duplicate(&self) -> (r: Player)
        ensures
            r == *self,
    {
        Player { id: self.id, name: self.name.clone() }
    }

    /// The mention form of this player, `<@id>`.
    pub fn mention(&self) -> (r: String)
        ensures
            r@ == mention_text(self.id),
    {
        user_mention(self.id)
    }
}

} // verus!
