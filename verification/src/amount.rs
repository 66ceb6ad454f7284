//! A signed entry of the ledger.

use vstd::prelude::*;
use vstd::string::*;

use crate::client::{client_text, Client, ClientView};
use crate::text::{money_text, render_money};
use crate::timestamp::{Instant, Timestamp};

verus! {

/// A signed amount, counted in hundredths, with who recorded it and when. The client
/// is a copy taken at that moment, not a link to the ledger's participants.
#[derive(Debug)]
pub struct Amount {
    value: i64,
    saved_by: Client,
    created_at: Timestamp,
}

/// What an `Amount` is, as plain values.
pub struct AmountView {
    pub value: int,
    pub saved_by: ClientView,
    pub created_at: Instant,
}

impl View for Amount {
    type V = AmountView;

    closed spec fn view(&self) -> AmountView {
        AmountView {
            value: self.value as int,
            saved_by: self.saved_by@,
            created_at: self.created_at@,
        }
    }
}

/// The views of a list of entries, in order.
pub open spec fn amount_views(amounts: Seq<Amount>) -> Seq<AmountView> {
    Seq::new(amounts.len(), |i: int| amounts[i]@)
}

/// How an entry reads in text: the amount, the day, and who recorded it.
pub open spec fn amount_text(a: AmountView) -> Seq<char> {
    "💲"@ + money_text(a.value) + ", 🗓️"@ + a.created_at.text() + ", 🥷"@ + client_text(a.saved_by)
}

/// One line of text for each entry, in order.
pub open spec fn amount_lines(amounts: Seq<AmountView>) -> Seq<Seq<char>> {
    Seq::new(amounts.len(), |i: int| amount_text(amounts[i]))
}

impl Amount {
    /// An entry of `value` hundredths, recorded by `saved_by` at `created_at`.
    pub fn from(value: i64, saved_by: Client, created_at: Timestamp) -> (a: Self)
        ensures
            a@ == (AmountView { value: value as int, saved_by: saved_by@, created_at: created_at@ }),
    {
        Self { value, saved_by, created_at }
    }

    /// The signed amount, in hundredths.
    pub fn amount_value(&self) -> (v: i64)
        ensures
            v == self@.value,
    {
        self.value
    }

    /// Who recorded the entry.
    pub fn saved_by(&self) -> (c: &Client)
        ensures
            c@ == self@.saved_by,
    {
        &self.saved_by
    }

    /// When the entry was recorded.
    pub fn created_at(&self) -> (t: Timestamp)
        ensures
            t@ == self@.created_at,
    {
        self.created_at
    }

    /// The amount, the day, and who recorded it.
    pub fn to_string(&self) -> (s: String)
        ensures
            s@ == amount_text(self@),
    {
        let mut s = String::from_str("💲");
        let value = render_money(self.value);
        s.append(value.as_str());
        s.append(", 🗓️");
        let day = self.created_at.to_string();
        s.append(day.as_str());
        s.append(", 🥷");
        let who = self.saved_by.to_string();
        s.append(who.as_str());
        s
    }
}

impl Clone for Amount {
    fn clone(&self) -> (a: Self)
        ensures
            a@ == self@,
    {
        Self { value: self.value, saved_by: self.saved_by.clone(), created_at: self.created_at }
    }
}

} // verus!
