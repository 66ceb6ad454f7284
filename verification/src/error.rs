//! Why an operation on the ledger did not take place.

use vstd::prelude::*;

verus! {

/// The failures of the ledger's operations. Each leaves the ledger as it was.
#[derive(Clone, Copy, Debug, PartialEq, Eq, Structural)]
pub enum PlanError {
    /// The code names no registered client.
    ClientNotFound,
    /// The new total would not fit an amount.
    Overflow,
}

} // verus!
