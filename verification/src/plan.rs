//! The ledger and its operations.
//!
//! Every operation that stamps the time comes in two forms. The form whose
//! name ends in `_at` takes the time as an argument and says exactly what
//! becomes of the ledger. The other reads the clock and hands over to the
//! first, so the same holds of it for the instant that the clock gave.

use vstd::prelude::*;
use vstd::string::*;

use crate::amount::{amount_lines, amount_text, amount_views, Amount, AmountView};
use crate::client::{client_lines, client_text, client_views, Client, ClientView, Role};
use crate::error::PlanError;
use crate::model::{
    find_by_code, find_by_role, fits, lemma_found_by_code_in_prefix,
    lemma_found_by_role_in_prefix, lemma_not_found_by_code, pending_sum, PlanView,
};
use crate::text::{join_lines, join_with_newlines, line_views};
use crate::timestamp::{representable, Instant, Timestamp};

verus! {

/// A ledger shared by two clients: who they are, what they recorded, and the
/// total as it was last computed.
#[derive(Debug)]
pub struct Plan {
    code: String,
    clients: Vec<Client>,
    amounts: Vec<Amount>,
    total: Option<Amount>,
}

/// The view of an optional client.
pub open spec fn client_view(c: Option<Client>) -> Option<ClientView> {
    match c {
        Some(c) => Some(c@),
        None => None,
    }
}

/// The view of the client that a registration answered with.
pub open spec fn registered_view(c: Option<&Client>) -> Option<ClientView> {
    match c {
        Some(c) => Some(c@),
        None => None,
    }
}

/// The view of an optional entry.
pub open spec fn amount_view(a: Option<Amount>) -> Option<AmountView> {
    match a {
        Some(a) => Some(a@),
        None => None,
    }
}

impl View for Plan {
    type V = PlanView;

    closed spec fn view(&self) -> PlanView {
        PlanView {
            code: self.code@,
            clients: client_views(self.clients@),
            amounts: amount_views(self.amounts@),
            total: amount_view(self.total),
        }
    }
}

/// Where the ledger with this code is kept: `database/<code>.json`.
pub open spec fn path_text(code: Seq<char>) -> Seq<char> {
    "database/"@ + code + ".json"@
}

/// What registering `client` makes of a ledger: the client is added where
/// its code is new and a place is free, and refused otherwise.
pub open spec fn set_client_outcome(
    before: PlanView,
    client: ClientView,
    after: PlanView,
    r: Option<ClientView>,
) -> bool {
    if before.accepts(client) {
        r == Some(client) && after == before.with_client(client)
    } else {
        r is None && after == before
    }
}

/// What recording `value` for the client `code` at `now` makes of a ledger.
/// Nothing is recorded before both places are taken; after that the code
/// must name a registered client.
pub open spec fn save_amount_outcome(
    before: PlanView,
    value: int,
    code: Seq<char>,
    now: Instant,
    after: PlanView,
    r: Result<Option<Amount>, PlanError>,
) -> bool {
    if !before.ready() {
        r matches Ok(None) && after == before
    } else {
        match find_by_code(before.clients, code) {
            None => r matches Err(e) && e == PlanError::ClientNotFound && after == before,
            Some(by) => r matches Ok(Some(a)) && a@ == (AmountView {
                value,
                saved_by: by,
                created_at: now,
            }) && after == before.with_amount(a@),
        }
    }
}

/// What taking back the last entry makes of a ledger, asked by the client
/// `code` at `now`. The total is rewritten even when there is no entry.
pub open spec fn pop_outcome(
    before: PlanView,
    code: Seq<char>,
    now: Instant,
    after: PlanView,
    r: Result<Option<Amount>, PlanError>,
) -> bool {
    match find_by_code(before.clients, code) {
        None => r matches Err(e) && e == PlanError::ClientNotFound && after == before,
        Some(by) => if fits(before.popped_total()) {
            r matches Ok(removed) && amount_view(removed) == before.last_amount() && after
                == before.after_pop(by, now)
        } else {
            r matches Err(e) && e == PlanError::Overflow && after == before
        },
    }
}

/// What clearing the entries makes of a ledger, asked by the client `code`
/// at `now`.
pub open spec fn reset_outcome(
    before: PlanView,
    code: Seq<char>,
    now: Instant,
    after: PlanView,
    r: Result<(), PlanError>,
) -> bool {
    match find_by_code(before.clients, code) {
        None => r matches Err(e) && e == PlanError::ClientNotFound && after == before,
        Some(by) => r is Ok && after == before.after_reset(by, now),
    }
}

/// What computing the total makes of a ledger, asked by the client `code` at
/// `now`.
pub open spec fn total_outcome(
    before: PlanView,
    code: Seq<char>,
    now: Instant,
    after: PlanView,
    r: Result<Option<Amount>, PlanError>,
) -> bool {
    match find_by_code(before.clients, code) {
        None => r matches Err(e) && e == PlanError::ClientNotFound && after == before,
        Some(by) => if fits(before.next_total()) {
            r matches Ok(total) && amount_view(total) == after.total && after
                == before.after_total(by, now)
        } else {
            r matches Err(e) && e == PlanError::Overflow && after == before
        },
    }
}

/// The history of a ledger: the entries as they stood `before` the total was
/// computed, one per line, then the total as it stands `after`.
pub open spec fn history_text(before: PlanView, after: PlanView) -> Seq<char> {
    join_lines(amount_lines(before.amounts)) + "\nTotal:\n"@ + match after.total {
        Some(t) => amount_text(t),
        None => Seq::<char>::empty(),
    }
}

/// What asking for the history makes of a ledger: the total is computed as
/// by `total_outcome`, and the text shows the entries from before that.
pub open spec fn history_outcome(
    before: PlanView,
    code: Seq<char>,
    now: Instant,
    after: PlanView,
    r: Result<String, PlanError>,
) -> bool {
    match find_by_code(before.clients, code) {
        None => r matches Err(e) && e == PlanError::ClientNotFound && after == before,
        Some(by) => if fits(before.next_total()) {
            r matches Ok(s) && s@ == history_text(before, after) && after == before.after_total(
                by,
                now,
            )
        } else {
            r matches Err(e) && e == PlanError::Overflow && after == before
        },
    }
}

impl Plan {
    #[verifier::type_invariant]
    spec fn holds(self) -> bool {
        self@.wf()
    }

    /// An empty ledger under the given code.
    pub fn new(code: &str) -> (plan: Self)
        ensures
            plan@ == PlanView::empty(code@),
    {
        let plan = Self {
            code: String::from_str(code),
            clients: Vec::new(),
            amounts: Vec::new(),
            total: None,
        };
        assert(plan@.clients =~= Seq::empty());
        assert(plan@.amounts =~= Seq::empty());
        plan
    }

    /// A ledger put together from its parts, if the clients are at most two
    /// and no two of them share a code.
    pub fn from_parts(
        code: &str,
        clients: Vec<Client>,
        amounts: Vec<Amount>,
        total: Option<Amount>,
    ) -> (r: Option<Self>)
        ensures
            ({
                let view = PlanView {
                    code: code@,
                    clients: client_views(clients@),
                    amounts: amount_views(amounts@),
                    total: amount_view(total),
                };
                &&& r is Some <==> view.wf()
                &&& r matches Some(plan) ==> plan@ == view
            }),
    {
        let n = clients.len();
        if n > 2 {
            return None;
        }
        if n == 2 && clients[0].code == clients[1].code {
            proof {
                assert(client_views(clients@)[0].code == client_views(clients@)[1].code);
            }
            return None;
        }
        Some(Self { code: String::from_str(code), clients, amounts, total })
    }

    /// The ledger's code.
    pub fn code(&self) -> (s: &str)
        ensures
            s@ == self@.code,
    {
        self.code.as_str()
    }

    /// The registered clients, in the order in which they registered: at
    /// most two, and no two with the same code.
    pub fn clients(&self) -> (v: &Vec<Client>)
        ensures
            client_views(v@) == self@.clients,
            self@.wf(),
    {
        proof {
            use_type_invariant(self);
        }
        &self.clients
    }

    /// The recorded entries, oldest first.
    pub fn amounts(&self) -> (v: &Vec<Amount>)
        ensures
            amount_views(v@) == self@.amounts,
    {
        &self.amounts
    }

    /// The total as it was last computed, if it ever was.
    pub fn current_total(&self) -> (t: &Option<Amount>)
        ensures
            amount_view(*t) == self@.total,
    {
        &self.total
    }

    /// Where the ledger is kept.
    pub fn path(&self) -> (s: String)
        ensures
            s@ == path_text(self@.code),
    {
        let mut s = String::from_str("database/");
        s.append(self.code.as_str());
        s.append(".json");
        s
    }

    /// The recorded entries as text, one per line.
    pub fn show_amounts(&self) -> (s: String)
        ensures
            s@ == join_lines(amount_lines(self@.amounts)),
    {
        let lines = self.amount_texts();
        join_with_newlines(&lines)
    }

    /// The registered clients as text, one per line.
    pub fn plan_clients(&self) -> (s: String)
        ensures
            s@ == join_lines(client_lines(self@.clients)),
    {
        let mut lines: Vec<String> = Vec::new();
        let mut i: usize = 0;
        while i < self.clients.len()
            invariant
                i <= self.clients.len(),
                lines@.len() == i,
                forall|k: int| 0 <= k < i ==> lines@[k]@ == client_text(self@.clients[k]),
            decreases self.clients.len() - i,
        {
            lines.push(self.clients[i].to_string());
            i += 1;
        }
        assert(line_views(lines@) =~= client_lines(self@.clients));
        join_with_newlines(&lines)
    }

    /// The text of each entry, in order.
    fn amount_texts(&self) -> (lines: Vec<String>)
        ensures
            line_views(lines@) == amount_lines(self@.amounts),
    {
        let mut lines: Vec<String> = Vec::new();
        let mut i: usize = 0;
        while i < self.amounts.len()
            invariant
                i <= self.amounts.len(),
                lines@.len() == i,
                forall|k: int| 0 <= k < i ==> lines@[k]@ == amount_text(self@.amounts[k]),
            decreases self.amounts.len() - i,
        {
            lines.push(self.amounts[i].to_string());
            i += 1;
        }
        lines
    }

    /// Whether both places are taken.
    pub fn check_both_clients_set(&self) -> (b: bool)
        ensures
            b == self@.ready(),
            b == (self@.clients.len() == 2),
    {
        proof {
            use_type_invariant(self);
        }
        self.clients.len() >= 2
    }

    /// Whether a client with the same code is registered already.
    fn check_client_present(&self, client: &Client) -> (b: bool)
        ensures
            b == self@.knows(client@.code),
    {
        self.get_client(client.code.as_str()).is_some()
    }

    /// The registered client with this code.
    fn get_client(&self, client_code: &str) -> (r: Option<Client>)
        ensures
            client_view(r) == find_by_code(self@.clients, client_code@),
    {
        let wanted = String::from_str(client_code);
        let mut i: usize = 0;
        while i < self.clients.len()
            invariant
                i <= self.clients.len(),
                wanted@ == client_code@,
                find_by_code(self@.clients.take(i as int), client_code@) is None,
            decreases self.clients.len() - i,
        {
            proof {
                assert(self@.clients.take(i + 1).drop_last() =~= self@.clients.take(i as int));
            }
            if self.clients[i].code == wanted {
                proof {
                    lemma_found_by_code_in_prefix(self@.clients, client_code@, i + 1);
                }
                return Some(self.clients[i].clone());
            }
            i += 1;
        }
        proof {
            assert(self@.clients.take(i as int) =~= self@.clients);
        }
        None
    }

    /// The first registered client with this role.
    pub fn get_client_by_role(&self, role: Role) -> (r: Result<Client, PlanError>)
        ensures
            match find_by_role(self@.clients, role) {
                Some(c) => r matches Ok(found) && found@ == c,
                None => r matches Err(e) && e == PlanError::ClientNotFound,
            },
    {
        let mut i: usize = 0;
        while i < self.clients.len()
            invariant
                i <= self.clients.len(),
                find_by_role(self@.clients.take(i as int), role) is None,
            decreases self.clients.len() - i,
        {
            proof {
                assert(self@.clients.take(i + 1).drop_last() =~= self@.clients.take(i as int));
            }
            if self.clients[i].role == role {
                proof {
                    lemma_found_by_role_in_prefix(self@.clients, role, i + 1);
                }
                return Ok(self.clients[i].clone());
            }
            i += 1;
        }
        proof {
            assert(self@.clients.take(i as int) =~= self@.clients);
        }
        Err(PlanError::ClientNotFound)
    }

    /// Registers `client`, unless its code is registered already or both
    /// places are taken. A refusal changes nothing.
    pub fn set_client<'a>(&mut self, client: &'a Client) -> (r: Option<&'a Client>)
        ensures
            set_client_outcome(old(self)@, client@, final(self)@, registered_view(r)),
            r matches Some(c) ==> c == client,
    {
        proof {
            use_type_invariant(&*self);
        }
        if self.check_client_present(client) {
            return None;
        }
        if self.clients.len() >= 2 {
            return None;
        }
        proof {
            lemma_not_found_by_code(self@.clients, client@.code);
        }
        let mut clients: Vec<Client> = Vec::new();
        core::mem::swap(&mut self.clients, &mut clients);
        clients.push(client.clone());
        proof {
            assert(client_views(clients@) =~= old(self)@.clients.push(client@));
        }
        self.clients = clients;
        Some(client)
    }

    /// Records `value` hundredths for the client `client_code`, stamped
    /// `now`, and returns the new entry.
    pub fn save_amount_at(&mut self, value: i64, client_code: &str, now: Timestamp) -> (r: Result<
        Option<Amount>,
        PlanError,
    >)
        ensures
            save_amount_outcome(old(self)@, value as int, client_code@, now@, final(self)@, r),
    {
        proof {
            use_type_invariant(&*self);
        }
        if !self.check_both_clients_set() {
            return Ok(None);
        }
        let client = match self.get_client(client_code) {
            Some(c) => c,
            None => {
                return Err(PlanError::ClientNotFound);
            },
        };
        let amount = Amount::from(value, client, now);
        let recorded = amount.clone();
        let mut amounts: Vec<Amount> = Vec::new();
        core::mem::swap(&mut self.amounts, &mut amounts);
        amounts.push(amount);
        proof {
            assert(amount_views(amounts@) =~= old(self)@.amounts.push(recorded@));
        }
        self.amounts = amounts;
        Ok(Some(recorded))
    }

    /// Takes back the last entry and returns it, or `None` where there is
    /// none. Either way the total is rewritten: the old total less the entry
    /// taken back, stamped with the asking client and `now`.
    ///
    /// That a ledger without entries still gets its total rewritten looks
    /// like an oversight rather than a rule. It is kept because the stamp
    /// that it leaves shows to whoever reads the ledger afterwards.
    pub fn pop_at(&mut self, client_code: &str, now: Timestamp) -> (r: Result<
        Option<Amount>,
        PlanError,
    >)
        ensures
            pop_outcome(old(self)@, client_code@, now@, final(self)@, r),
    {
        proof {
            use_type_invariant(&*self);
        }
        let client = match self.get_client(client_code) {
            Some(c) => c,
            None => {
                return Err(PlanError::ClientNotFound);
            },
        };
        let previous: i64 = match &self.total {
            Some(t) => t.amount_value(),
            None => 0,
        };
        let n = self.amounts.len();
        let last: i64 = if n > 0 {
            self.amounts[n - 1].amount_value()
        } else {
            0
        };
        let value: i128 = previous as i128 - last as i128;
        if value < i64::MIN as i128 || value > i64::MAX as i128 {
            return Err(PlanError::Overflow);
        }
        let mut amounts: Vec<Amount> = Vec::new();
        core::mem::swap(&mut self.amounts, &mut amounts);
        let removed = amounts.pop();
        proof {
            if n > 0 {
                assert(amount_views(amounts@) =~= old(self)@.amounts.drop_last());
            }
        }
        self.amounts = amounts;
        self.total = Some(Amount::from(value as i64, client, now));
        Ok(removed)
    }

    /// Clears the entries and sets the total to zero, stamped with the
    /// asking client and `now`. The clients stay.
    pub fn reset_at(&mut self, client_code: &str, now: Timestamp) -> (r: Result<(), PlanError>)
        ensures
            reset_outcome(old(self)@, client_code@, now@, final(self)@, r),
    {
        proof {
            use_type_invariant(&*self);
        }
        let client = match self.get_client(client_code) {
            Some(c) => c,
            None => {
                return Err(PlanError::ClientNotFound);
            },
        };
        self.amounts = Vec::new();
        self.total = Some(Amount::from(0, client, now));
        proof {
            assert(self@.amounts =~= Seq::empty());
        }
        Ok(())
    }

    /// Clears clients and entries and sets the total to zero, stamped `now`
    /// and signed by nobody. The code stays.
    pub fn restore_at(&mut self, now: Timestamp)
        ensures
            final(self)@ == old(self)@.after_restore(now@),
    {
        self.clients = Vec::new();
        self.amounts = Vec::new();
        self.total = Some(Amount::from(0, Client::default(), now));
        proof {
            assert(self@.clients =~= Seq::empty());
            assert(self@.amounts =~= Seq::empty());
        }
    }

    /// The sum of the entries that the total does not hold yet.
    fn pending(&self) -> (sum: i128)
        ensures
            sum == pending_sum(self@.amounts, self@.boundary()),
            -0x8000_0000_0000_0000 * self@.amounts.len() <= sum <= 0x8000_0000_0000_0000
                * self@.amounts.len(),
    {
        let mut sum: i128 = 0;
        let mut i: usize = 0;
        while i < self.amounts.len()
            invariant
                i <= self.amounts.len(),
                sum == pending_sum(self@.amounts.take(i as int), self@.boundary()),
                -0x8000_0000_0000_0000 * i <= sum <= 0x8000_0000_0000_0000 * i,
            decreases self.amounts.len() - i,
        {
            proof {
                assert(self@.amounts.take(i + 1).drop_last() =~= self@.amounts.take(i as int));
            }
            let amount = &self.amounts[i];
            let counts = match &self.total {
                None => true,
                Some(t) => amount.created_at().is_after(&t.created_at()),
            };
            if counts {
                sum = sum + amount.amount_value() as i128;
            }
            i += 1;
        }
        proof {
            assert(self@.amounts.take(i as int) =~= self@.amounts);
        }
        sum
    }

    /// Folds the pending entries into the total, stamps it with the asking
    /// client and `now`, and returns it. A ledger that nets to zero is
    /// cleared of its entries.
    pub fn total_at(&mut self, client_code: &str, now: Timestamp) -> (r: Result<
        Option<Amount>,
        PlanError,
    >)
        ensures
            total_outcome(old(self)@, client_code@, now@, final(self)@, r),
    {
        proof {
            use_type_invariant(&*self);
        }
        let client = match self.get_client(client_code) {
            Some(c) => c,
            None => {
                return Err(PlanError::ClientNotFound);
            },
        };
        let previous: i64 = match &self.total {
            Some(t) => t.amount_value(),
            None => 0,
        };
        let pending = self.pending();
        assert(self@.amounts.len() == self.amounts.len() <= usize::MAX);
        let value: i128 = previous as i128 + pending;
        if value < i64::MIN as i128 || value > i64::MAX as i128 {
            return Err(PlanError::Overflow);
        }
        let total = Amount::from(value as i64, client, now);
        let answer = total.clone();
        if value == 0 {
            self.amounts = Vec::new();
            proof {
                assert(self@.amounts =~= Seq::empty());
            }
        }
        self.total = Some(total);
        Ok(Some(answer))
    }

    /// The entries as they stand, one per line, followed by the total that
    /// `total_at` then computes.
    pub fn history_at(&mut self, client_code: &str, now: Timestamp) -> (r: Result<
        String,
        PlanError,
    >)
        ensures
            history_outcome(old(self)@, client_code@, now@, final(self)@, r),
    {
        let lines = self.amount_texts();
        let total = match self.total_at(client_code, now) {
            Ok(t) => t,
            Err(e) => {
                return Err(e);
            },
        };
        let mut s = join_with_newlines(&lines);
        s.append("\nTotal:\n");
        let text = total.unwrap().to_string();
        s.append(text.as_str());
        Ok(s)
    }

    /// Records `value` hundredths for the client `client_code`, stamped with
    /// the current time.
    pub fn save_amount(&mut self, value: i64, client_code: &str) -> (r: Result<
        Option<Amount>,
        PlanError,
    >)
        ensures
            exists|now: Instant|
                representable(now.secs, now.nanos) && save_amount_outcome(
                    old(self)@,
                    value as int,
                    client_code@,
                    now,
                    final(self)@,
                    r,
                ),
    {
        let now = Timestamp::now();
        self.save_amount_at(value, client_code, now)
    }

    /// Takes back the last entry, stamping the rewritten total with the
    /// current time.
    pub fn pop(&mut self, client_code: &str) -> (r: Result<Option<Amount>, PlanError>)
        ensures
            exists|now: Instant|
                representable(now.secs, now.nanos) && pop_outcome(
                    old(self)@,
                    client_code@,
                    now,
                    final(self)@,
                    r,
                ),
    {
        let now = Timestamp::now();
        self.pop_at(client_code, now)
    }

    /// Clears the entries, stamping the zero total with the current time.
    pub fn reset(&mut self, client_code: &str) -> (r: Result<(), PlanError>)
        ensures
            exists|now: Instant|
                representable(now.secs, now.nanos) && reset_outcome(
                    old(self)@,
                    client_code@,
                    now,
                    final(self)@,
                    r,
                ),
    {
        let now = Timestamp::now();
        self.reset_at(client_code, now)
    }

    /// Clears clients and entries, stamping the zero total with the current
    /// time.
    pub fn restore(&mut self)
        ensures
            exists|now: Instant|
                representable(now.secs, now.nanos) && final(self)@ == old(self)@.after_restore(
                    now,
                ),
    {
        let now = Timestamp::now();
        self.restore_at(now)
    }

    /// Computes the total, stamping it with the current time.
    pub fn total(&mut self, client_code: &str) -> (r: Result<Option<Amount>, PlanError>)
        ensures
            exists|now: Instant|
                representable(now.secs, now.nanos) && total_outcome(
                    old(self)@,
                    client_code@,
                    now,
                    final(self)@,
                    r,
                ),
    {
        let now = Timestamp::now();
        self.total_at(client_code, now)
    }

    /// The history, with the total computed at the current time.
    pub fn history(&mut self, client_code: &str) -> (r: Result<String, PlanError>)
        ensures
            exists|now: Instant|
                representable(now.secs, now.nanos) && history_outcome(
                    old(self)@,
                    client_code@,
                    now,
                    final(self)@,
                    r,
                ),
    {
        let now = Timestamp::now();
        self.history_at(client_code, now)
    }
}

} // verus!
