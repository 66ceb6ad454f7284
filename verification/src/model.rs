//! The ledger as mathematics: what it holds, and what each operation makes
//! of it. The executable ledger is described by these functions.

use vstd::prelude::*;

use crate::client::{nobody, ClientView, Role};
use crate::amount::AmountView;
use crate::timestamp::Instant;

verus! {

/// What a ledger holds, as plain values.
pub struct PlanView {
    pub code: Seq<char>,
    pub clients: Seq<ClientView>,
    pub amounts: Seq<AmountView>,
    pub total: Option<AmountView>,
}

/// The first client whose code is `code`.
pub open spec fn find_by_code(clients: Seq<ClientView>, code: Seq<char>) -> Option<ClientView>
    decreases clients.len(),
{
    if clients.len() == 0 {
        None
    } else {
        match find_by_code(clients.drop_last(), code) {
            Some(c) => Some(c),
            None => if clients.last().code == code {
                Some(clients.last())
            } else {
                None
            },
        }
    }
}

/// The first client whose role is `role`.
pub open spec fn find_by_role(clients: Seq<ClientView>, role: Role) -> Option<ClientView>
    decreases clients.len(),
{
    if clients.len() == 0 {
        None
    } else {
        match find_by_role(clients.drop_last(), role) {
            Some(c) => Some(c),
            None => if clients.last().role == role {
                Some(clients.last())
            } else {
                None
            },
        }
    }
}

/// Whether an entry stamped `at` is still outside a total whose boundary is
/// `boundary`: every entry while there is no total, and afterwards those
/// stamped strictly later than the total.
pub open spec fn unfolded(at: Instant, boundary: Option<Instant>) -> bool {
    match boundary {
        None => true,
        Some(b) => at.later_than(b),
    }
}

/// The sum of the entries that are still outside the total.
pub open spec fn pending_sum(amounts: Seq<AmountView>, boundary: Option<Instant>) -> int
    decreases amounts.len(),
{
    if amounts.len() == 0 {
        0
    } else {
        pending_sum(amounts.drop_last(), boundary) + if unfolded(
            amounts.last().created_at,
            boundary,
        ) {
            amounts.last().value
        } else {
            0
        }
    }
}

/// Whether an amount can be stored.
pub open spec fn fits(v: int) -> bool {
    i64::MIN <= v <= i64::MAX
}

/// An entry of nothing, stamped `by` and `now`.
pub open spec fn zero_entry(by: ClientView, now: Instant) -> AmountView {
    AmountView { value: 0, saved_by: by, created_at: now }
}

impl PlanView {
    /// At most two clients, and no code twice.
    pub open spec fn wf(self) -> bool {
        &&& self.clients.len() <= 2
        &&& forall|i: int, j: int|
            0 <= i < j < self.clients.len() ==> self.clients[i].code != self.clients[j].code
    }

    /// A ledger with a code and nothing else.
    pub open spec fn empty(code: Seq<char>) -> PlanView {
        PlanView { code, clients: Seq::empty(), amounts: Seq::empty(), total: None }
    }

    /// Whether a client with this code is registered.
    pub open spec fn knows(self, code: Seq<char>) -> bool {
        find_by_code(self.clients, code) is Some
    }

    /// Whether both places are taken.
    pub open spec fn ready(self) -> bool {
        self.clients.len() >= 2
    }

    /// Whether `c` can register: its code is new and a place is free.
    pub open spec fn accepts(self, c: ClientView) -> bool {
        !self.knows(c.code) && self.clients.len() < 2
    }

    /// The ledger with `c` registered last.
    pub open spec fn with_client(self, c: ClientView) -> PlanView {
        PlanView { clients: self.clients.push(c), ..self }
    }

    /// The ledger with `a` recorded last.
    pub open spec fn with_amount(self, a: AmountView) -> PlanView {
        PlanView { amounts: self.amounts.push(a), ..self }
    }

    /// The instant up to which entries are folded into the total.
    pub open spec fn boundary(self) -> Option<Instant> {
        match self.total {
            Some(t) => Some(t.created_at),
            None => None,
        }
    }

    /// The value of the total, zero where there is none.
    pub open spec fn total_value(self) -> int {
        match self.total {
            Some(t) => t.value,
            None => 0,
        }
    }

    /// The value of the last entry, zero where there is none.
    pub open spec fn last_value(self) -> int {
        if self.amounts.len() > 0 {
            self.amounts.last().value
        } else {
            0
        }
    }

    /// The last entry, if there is one.
    pub open spec fn last_amount(self) -> Option<AmountView> {
        if self.amounts.len() > 0 {
            Some(self.amounts.last())
        } else {
            None
        }
    }

    /// What the total becomes when the pending entries are folded into it.
    pub open spec fn next_total(self) -> int {
        self.total_value() + pending_sum(self.amounts, self.boundary())
    }

    /// What the total becomes when the last entry is taken back.
    pub open spec fn popped_total(self) -> int {
        self.total_value() - self.last_value()
    }

    /// The ledger after its last entry was taken back by `by` at `now`. The
    /// total is rewritten even when there was no entry to take.
    pub open spec fn after_pop(self, by: ClientView, now: Instant) -> PlanView {
        PlanView {
            amounts: if self.amounts.len() > 0 {
                self.amounts.drop_last()
            } else {
                self.amounts
            },
            total: Some(AmountView { value: self.popped_total(), saved_by: by, created_at: now }),
            ..self
        }
    }

    /// The ledger with its entries cleared and a zero total stamped `by` and
    /// `now`. The clients stay.
    pub open spec fn after_reset(self, by: ClientView, now: Instant) -> PlanView {
        PlanView { amounts: Seq::empty(), total: Some(zero_entry(by, now)), ..self }
    }

    /// The ledger with clients and entries cleared and a zero total that
    /// nobody signed.
    pub open spec fn after_restore(self, now: Instant) -> PlanView {
        PlanView {
            clients: Seq::empty(),
            amounts: Seq::empty(),
            total: Some(zero_entry(nobody(), now)),
            ..self
        }
    }

    /// The ledger after `by` asked for the total at `now`: the pending
    /// entries are folded in, and a ledger that nets to zero is cleared.
    pub open spec fn after_total(self, by: ClientView, now: Instant) -> PlanView {
        if self.next_total() == 0 {
            self.after_reset(by, now)
        } else {
            PlanView {
                total: Some(AmountView { value: self.next_total(), saved_by: by, created_at: now }),
                ..self
            }
        }
    }
}

/// A client found in a prefix is the client found in the whole sequence.
pub proof fn lemma_found_by_code_in_prefix(clients: Seq<ClientView>, code: Seq<char>, k: int)
    requires
        0 <= k <= clients.len(),
        find_by_code(clients.take(k), code) is Some,
    ensures
        find_by_code(clients, code) == find_by_code(clients.take(k), code),
    decreases clients.len() - k,
{
    if k < clients.len() {
        assert(clients.take(k + 1).drop_last() =~= clients.take(k));
        lemma_found_by_code_in_prefix(clients, code, k + 1);
    } else {
        assert(clients.take(k) =~= clients);
    }
}

/// A client found in a prefix is the client found in the whole sequence.
pub proof fn lemma_found_by_role_in_prefix(clients: Seq<ClientView>, role: Role, k: int)
    requires
        0 <= k <= clients.len(),
        find_by_role(clients.take(k), role) is Some,
    ensures
        find_by_role(clients, role) == find_by_role(clients.take(k), role),
    decreases clients.len() - k,
{
    if k < clients.len() {
        assert(clients.take(k + 1).drop_last() =~= clients.take(k));
        lemma_found_by_role_in_prefix(clients, role, k + 1);
    } else {
        assert(clients.take(k) =~= clients);
    }
}

/// No client is found exactly when no code in the sequence matches.
pub proof fn lemma_not_found_by_code(clients: Seq<ClientView>, code: Seq<char>)
    ensures
        find_by_code(clients, code) is None <==> forall|i: int|
            0 <= i < clients.len() ==> clients[i].code != code,
        find_by_code(clients, code) matches Some(c) ==> c.code == code && clients.contains(c),
    decreases clients.len(),
{
    if clients.len() > 0 {
        lemma_not_found_by_code(clients.drop_last(), code);
        let front = clients.drop_last();
        if find_by_code(front, code) is None && clients.last().code != code {
            assert forall|i: int| 0 <= i < clients.len() implies clients[i].code != code by {
                if i < front.len() {
                    assert(front[i] == clients[i]);
                }
            }
        }
    }
}

} // verus!
