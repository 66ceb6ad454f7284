//! A shared ledger of debts between two people.

pub mod amount;
pub mod client;
pub mod command;
pub mod error;
pub mod laws;
pub mod model;
pub mod persist;
pub mod plan;
pub mod text;
pub mod timestamp;

pub use amount::Amount;
pub use client::{Client, Role};
pub use command::{Command, Gate};
pub use error::PlanError;
pub use plan::Plan;
pub use timestamp::Timestamp;
