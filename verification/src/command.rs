//! What a participant may ask of the ledger, and what has to hold before the
//! ledger acts on it.
//!
//! Entries, totals and the history wait for both clients; taking back,
//! resetting and restoring wait for the word `confirm`. A request that has
//! to wait changes nothing.

use vstd::prelude::*;
use vstd::string::*;

use crate::client::Role;
use crate::plan::Plan;

verus! {

/// What `str::to_lowercase` makes of a text: each character replaced by its
/// lower-case form as Unicode defines it.
pub uninterp spec fn lowercased(text: Seq<char>) -> Seq<char>;

/// Trusted: `str::to_lowercase`, whose result `lowercased` names.
#[verifier::external_body]
fn lowercase(text: &str) -> (s: String)
    ensures
        s@ == lowercased(text@),
{
    text.to_lowercase()
}

/// The role that a lower-case word names.
pub open spec fn role_named(word: Seq<char>) -> Option<Role> {
    if word == "adder"@ {
        Some(Role::Adder)
    } else if word == "subtractor"@ {
        Some(Role::Subtractor)
    } else {
        None
    }
}

/// Whether a lower-case word is the word that confirms.
pub open spec fn is_confirm_word(word: Seq<char>) -> bool {
    word == "confirm"@
}

/// A request as it arrives, with its argument as the participant typed it.
#[derive(Debug)]
pub enum Command {
    Help,
    Start,
    SetMe(String),
    Add(String),
    Sub(String),
    Total,
    Pop(String),
    Reset(String),
    Restore(String),
    History,
    Clients,
}

/// Whether the ledger acts on a request, and if not, what is missing.
#[derive(Clone, Copy, Debug, PartialEq, Eq, Structural)]
pub enum Gate {
    /// The ledger acts.
    Open,
    /// Both clients have to register first.
    BothClientsNeeded,
    /// The argument has to be the word `confirm`.
    ConfirmationNeeded,
}

/// Whether a request waits for both clients.
pub open spec fn needs_both_clients(command: Command) -> bool {
    match command {
        Command::Add(_) | Command::Sub(_) | Command::Total | Command::Pop(_) | Command::Reset(_)
        | Command::History => true,
        _ => false,
    }
}

/// The argument that has to confirm a request, where it needs one.
pub open spec fn confirmation_of(command: Command) -> Option<Seq<char>> {
    match command {
        Command::Pop(word) | Command::Reset(word) | Command::Restore(word) => Some(word@),
        _ => None,
    }
}

/// Whether the argument of a request confirms it, in whatever case it is
/// written. A request without such an argument is not confirmed.
pub open spec fn confirmed(command: Command) -> bool {
    match confirmation_of(command) {
        Some(word) => is_confirm_word(lowercased(word)),
        None => false,
    }
}

/// What the ledger answers to a request: the missing clients are named
/// before the missing confirmation.
pub open spec fn gate_of(ready: bool, confirmed: bool, command: Command) -> Gate {
    if needs_both_clients(command) && !ready {
        Gate::BothClientsNeeded
    } else if confirmation_of(command) is Some && !confirmed {
        Gate::ConfirmationNeeded
    } else {
        Gate::Open
    }
}

impl Role {
    /// The role that a lower-case word names: `adder` or `subtractor`.
    pub fn named(word: &str) -> (r: Option<Role>)
        ensures
            r == role_named(word@),
    {
        let word = String::from_str(word);
        if word == String::from_str("adder") {
            Some(Role::Adder)
        } else if word == String::from_str("subtractor") {
            Some(Role::Subtractor)
        } else {
            None
        }
    }

    /// The role that a text names, in whatever case it is written.
    pub fn parse(text: &str) -> (r: Option<Role>)
        ensures
            r == role_named(lowercased(text@)),
    {
        let word = lowercase(text);
        Role::named(word.as_str())
    }
}

/// Whether a lower-case word is `confirm`.
pub fn confirm_word(word: &str) -> (b: bool)
    ensures
        b == is_confirm_word(word@),
{
    String::from_str(word) == String::from_str("confirm")
}

/// Whether a text is the word `confirm`, in whatever case it is written.
pub fn confirms(text: &str) -> (b: bool)
    ensures
        b == is_confirm_word(lowercased(text@)),
{
    let word = lowercase(text);
    confirm_word(word.as_str())
}

impl Command {
    /// Whether the request waits for both clients.
    pub fn needs_both_clients(&self) -> (b: bool)
        ensures
            b == needs_both_clients(*self),
    {
        match self {
            Command::Add(_) | Command::Sub(_) | Command::Total | Command::Pop(_) | Command::Reset(
                _,
            ) | Command::History => true,
            _ => false,
        }
    }

    /// The argument that has to confirm the request, where it needs one.
    pub fn confirmation(&self) -> (word: Option<&str>)
        ensures
            match word {
                Some(w) => confirmation_of(*self) == Some(w@),
                None => confirmation_of(*self) is None,
            },
    {
        match self {
            Command::Pop(word) | Command::Reset(word) | Command::Restore(word) => Some(
                word.as_str(),
            ),
            _ => None,
        }
    }

    /// What the ledger answers to the request, given whether both clients
    /// are registered and whether the argument confirmed.
    pub fn gate(&self, ready: bool, confirmed: bool) -> (g: Gate)
        ensures
            g == gate_of(ready, confirmed, *self),
    {
        if self.needs_both_clients() && !ready {
            Gate::BothClientsNeeded
        } else if self.confirmation().is_some() && !confirmed {
            Gate::ConfirmationNeeded
        } else {
            Gate::Open
        }
    }
}

impl Plan {
    /// Whether this ledger acts on the request.
    pub fn admits(&self, command: &Command) -> (g: Gate)
        ensures
            g == gate_of(self@.ready(), confirmed(*command), *command),
    {
        let confirmed = match command.confirmation() {
            Some(word) => confirms(word),
            None => false,
        };
        command.gate(self.check_both_clients_set(), confirmed)
    }
}

} // verus!
