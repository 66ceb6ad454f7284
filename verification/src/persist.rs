//! When a ledger has to be written back to where it is kept.
//!
//! An operation that was refused or that failed has left the ledger as it
//! was, and no write follows it. Every other operation is followed by one:
//! also taking back from a ledger without entries, which still rewrites the
//! total, and a restore, which cannot be refused.

use vstd::prelude::*;

use crate::amount::Amount;
use crate::client::Client;
use crate::error::PlanError;

verus! {

/// Whether a write follows a registration that answered `r`: only where the
/// client was registered.
pub open spec fn set_client_written(r: Option<&Client>) -> bool {
    r is Some
}

/// Whether a write follows a recording that answered `r`: only where an
/// entry was recorded.
pub open spec fn save_amount_written(r: Result<Option<Amount>, PlanError>) -> bool {
    r matches Ok(Some(_))
}

/// Whether a write follows a taking back that answered `r`: wherever it did
/// not fail, with or without an entry.
pub open spec fn pop_written(r: Result<Option<Amount>, PlanError>) -> bool {
    r is Ok
}

/// Whether a write follows a reset that answered `r`: wherever it did not
/// fail.
pub open spec fn reset_written(r: Result<(), PlanError>) -> bool {
    r is Ok
}

/// Whether a write follows a total that answered `r`: wherever it did not
/// fail.
pub open spec fn total_written(r: Result<Option<Amount>, PlanError>) -> bool {
    r is Ok
}

/// Whether a write follows a history that answered `r`: wherever it did not
/// fail, since the history computes the total.
pub open spec fn history_written(r: Result<String, PlanError>) -> bool {
    r is Ok
}

/// Whether the ledger is written back after `Plan::set_client` answered `r`.
pub fn write_after_set_client(r: &Option<&Client>) -> (b: bool)
    ensures
        b == set_client_written(*r),
{
    r.is_some()
}

/// Whether the ledger is written back after `Plan::save_amount` answered
/// `r`.
pub fn write_after_save_amount(r: &Result<Option<Amount>, PlanError>) -> (b: bool)
    ensures
        b == save_amount_written(*r),
{
    match r {
        Ok(Some(_)) => true,
        _ => false,
    }
}

/// Whether the ledger is written back after `Plan::pop` answered `r`.
pub fn write_after_pop(r: &Result<Option<Amount>, PlanError>) -> (b: bool)
    ensures
        b == pop_written(*r),
{
    r.is_ok()
}

/// Whether the ledger is written back after `Plan::reset` answered `r`.
pub fn write_after_reset(r: &Result<(), PlanError>) -> (b: bool)
    ensures
        b == reset_written(*r),
{
    r.is_ok()
}

/// Whether the ledger is written back after `Plan::total` answered `r`.
pub fn write_after_total(r: &Result<Option<Amount>, PlanError>) -> (b: bool)
    ensures
        b == total_written(*r),
{
    r.is_ok()
}

/// Whether the ledger is written back after `Plan::history` answered `r`.
pub fn write_after_history(r: &Result<String, PlanError>) -> (b: bool)
    ensures
        b == history_written(*r),
{
    r.is_ok()
}

} // verus!
