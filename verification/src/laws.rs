//! What holds of the ledger across its operations, proved from the
//! descriptions of the operations.

use vstd::prelude::*;

use crate::amount::{Amount, AmountView};
use crate::client::ClientView;
use crate::error::PlanError;
use crate::model::{find_by_code, fits, pending_sum, PlanView};
use crate::client::Client;
use crate::persist::{
    history_written, pop_written, reset_written, save_amount_written, set_client_written,
    total_written,
};
use crate::plan::{
    amount_view, history_outcome, pop_outcome, registered_view, reset_outcome,
    save_amount_outcome, set_client_outcome, total_outcome,
};
use crate::timestamp::Instant;

verus! {

/// A registration that is accepted leaves a ledger with at most two clients
/// and no code twice.
pub proof fn law_registration_keeps_shape(plan: PlanView, client: ClientView)
    requires
        plan.wf(),
        plan.accepts(client),
    ensures
        plan.with_client(client).wf(),
        plan.with_client(client).clients.len() <= 2,
{
    crate::model::lemma_not_found_by_code(plan.clients, client.code);
}

/// Once a client is registered, a second registration under the same code
/// is refused, whatever name and role it carries.
pub proof fn law_second_registration_refused(plan: PlanView, client: ClientView, again: ClientView)
    requires
        plan.accepts(client),
        again.code == client.code,
    ensures
        !plan.with_client(client).accepts(again),
{
}

/// No operation on the entries or the total touches the clients, and a
/// restore removes them: a ledger with at most two clients and no code twice
/// stays one.
pub proof fn law_operations_keep_shape(
    plan: PlanView,
    entry: AmountView,
    by: ClientView,
    now: Instant,
)
    requires
        plan.wf(),
    ensures
        plan.with_amount(entry).wf(),
        plan.after_pop(by, now).wf(),
        plan.after_reset(by, now).wf(),
        plan.after_restore(now).wf(),
        plan.after_total(by, now).wf(),
{
}

/// Before both places are taken, recording is refused and the ledger stays
/// as it was.
pub proof fn law_recording_needs_both_clients(
    before: PlanView,
    value: int,
    code: Seq<char>,
    now: Instant,
    after: PlanView,
    r: Result<Option<Amount>, PlanError>,
)
    requires
        save_amount_outcome(before, value, code, now, after, r),
        before.clients.len() < 2,
    ensures
        r matches Ok(None),
        !save_amount_written(r),
        after == before,
        after.amounts == before.amounts,
{
}

/// Taking back from a ledger without entries returns no entry and still
/// rewrites the total: the old value less nothing, which is zero where there
/// was no total, stamped with the asking client and the time of asking.
pub proof fn law_pop_on_empty(
    before: PlanView,
    code: Seq<char>,
    now: Instant,
    after: PlanView,
    r: Result<Option<Amount>, PlanError>,
)
    requires
        pop_outcome(before, code, now, after, r),
        before.knows(code),
        before.amounts.len() == 0,
        fits(before.total_value()),
    ensures
        r matches Ok(None),
        pop_written(r),
        after.amounts.len() == 0,
        after.total == Some(
            AmountView {
                value: before.total_value(),
                saved_by: find_by_code(before.clients, code)->Some_0,
                created_at: now,
            },
        ),
        before.total is None ==> after.total_value() == 0,
{
}

/// Computing the total twice with nothing recorded in between gives the same
/// value both times, provided the first computation left nothing pending:
/// either it came to zero, or the entries stamped later than it sum to zero
/// (as they do when no entry is stamped later than the first computation).
pub proof fn law_total_twice(
    before: PlanView,
    first_code: Seq<char>,
    first_now: Instant,
    between: PlanView,
    first: Result<Option<Amount>, PlanError>,
    second_code: Seq<char>,
    second_now: Instant,
    after: PlanView,
    second: Result<Option<Amount>, PlanError>,
)
    requires
        total_outcome(before, first_code, first_now, between, first),
        total_outcome(between, second_code, second_now, after, second),
        first is Ok,
        before.knows(second_code),
        between.total_value() == 0 || pending_sum(before.amounts, Some(first_now)) == 0,
    ensures
        second is Ok,
        amount_view(first->Ok_0) is Some,
        amount_view(second->Ok_0) is Some,
        amount_view(second->Ok_0)->Some_0.value == amount_view(first->Ok_0)->Some_0.value,
        after.total_value() == between.total_value(),
{
}

/// Where no entry is stamped later than `boundary`, nothing is pending after
/// it.
pub proof fn lemma_nothing_pending(amounts: Seq<AmountView>, boundary: Instant)
    requires
        forall|i: int| 0 <= i < amounts.len() ==> !amounts[i].created_at.later_than(boundary),
    ensures
        pending_sum(amounts, Some(boundary)) == 0,
    decreases amounts.len(),
{
    if amounts.len() > 0 {
        lemma_nothing_pending(amounts.drop_last(), boundary);
    }
}

/// Computing the total twice with nothing recorded in between gives the same
/// value both times when the clock did not run backwards: no entry is
/// stamped later than the first computation.
pub proof fn law_total_twice_in_order(
    before: PlanView,
    first_code: Seq<char>,
    first_now: Instant,
    between: PlanView,
    first: Result<Option<Amount>, PlanError>,
    second_code: Seq<char>,
    second_now: Instant,
    after: PlanView,
    second: Result<Option<Amount>, PlanError>,
)
    requires
        total_outcome(before, first_code, first_now, between, first),
        total_outcome(between, second_code, second_now, after, second),
        first is Ok,
        before.knows(second_code),
        forall|i: int|
            0 <= i < before.amounts.len() ==> !before.amounts[i].created_at.later_than(first_now),
    ensures
        second is Ok,
        amount_view(second->Ok_0)->Some_0.value == amount_view(first->Ok_0)->Some_0.value,
        after.total_value() == between.total_value(),
{
    lemma_nothing_pending(before.amounts, first_now);
    law_total_twice(
        before,
        first_code,
        first_now,
        between,
        first,
        second_code,
        second_now,
        after,
        second,
    );
}

/// When the total comes to exactly zero, the entries are gone and the stored
/// total is zero.
pub proof fn law_zero_total_clears(
    before: PlanView,
    code: Seq<char>,
    now: Instant,
    after: PlanView,
    r: Result<Option<Amount>, PlanError>,
)
    requires
        total_outcome(before, code, now, after, r),
        r matches Ok(Some(total)) && total@.value == 0,
    ensures
        after.amounts.len() == 0,
        after.total matches Some(t) && t.value == 0,
{
}

/// A reset leaves no entries and a zero total, and keeps the clients.
pub proof fn law_reset_clears(
    before: PlanView,
    code: Seq<char>,
    now: Instant,
    after: PlanView,
    r: Result<(), PlanError>,
)
    requires
        reset_outcome(before, code, now, after, r),
        r is Ok,
    ensures
        after.amounts.len() == 0,
        after.total matches Some(t) && t.value == 0,
        after.clients == before.clients,
{
}

/// A restore leaves no clients, no entries and a zero total, under the same
/// code.
pub proof fn law_restore_clears(plan: PlanView, now: Instant)
    ensures
        plan.after_restore(now).clients.len() == 0,
        plan.after_restore(now).amounts.len() == 0,
        plan.after_restore(now).total matches Some(t) && t.value == 0,
        plan.after_restore(now).code == plan.code,
{
}

/// Where no write follows a registration or a recording, the ledger is as
/// it was: leaving the write out loses nothing. A recording is written
/// exactly where it added an entry.
pub proof fn law_unwritten_entry_changes_nothing(
    before: PlanView,
    client: &Client,
    registered: Option<&Client>,
    after_registration: PlanView,
    value: int,
    code: Seq<char>,
    now: Instant,
    recorded: Result<Option<Amount>, PlanError>,
    after_recording: PlanView,
)
    requires
        set_client_outcome(before, client@, after_registration, registered_view(registered)),
        save_amount_outcome(before, value, code, now, after_recording, recorded),
    ensures
        !set_client_written(registered) ==> after_registration == before,
        set_client_written(registered) ==> after_registration.clients.len()
            == before.clients.len() + 1,
        !save_amount_written(recorded) ==> after_recording == before,
        save_amount_written(recorded) ==> after_recording.amounts.len() == before.amounts.len()
            + 1,
{
}

/// Where no write follows taking back, a reset, a total or a history, the
/// operation failed and the ledger is as it was; and each of them is written
/// wherever the asking client is registered and the new total can be stored.
pub proof fn law_unwritten_total_changes_nothing(
    before: PlanView,
    code: Seq<char>,
    now: Instant,
    popped: Result<Option<Amount>, PlanError>,
    after_pop: PlanView,
    cleared: Result<(), PlanError>,
    after_reset: PlanView,
    total: Result<Option<Amount>, PlanError>,
    after_total: PlanView,
    history: Result<String, PlanError>,
    after_history: PlanView,
)
    requires
        pop_outcome(before, code, now, after_pop, popped),
        reset_outcome(before, code, now, after_reset, cleared),
        total_outcome(before, code, now, after_total, total),
        history_outcome(before, code, now, after_history, history),
    ensures
        !pop_written(popped) ==> after_pop == before,
        !reset_written(cleared) ==> after_reset == before,
        !total_written(total) ==> after_total == before,
        !history_written(history) ==> after_history == before,
        pop_written(popped) <==> before.knows(code) && fits(before.popped_total()),
        reset_written(cleared) <==> before.knows(code),
        total_written(total) <==> before.knows(code) && fits(before.next_total()),
        history_written(history) <==> total_written(total),
{
}

} // verus!
