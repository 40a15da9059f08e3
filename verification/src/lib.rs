//! A delegated, recurring-disbursement engine.
//!
//! A funder delegates spend authority over a pool to a custodian record
//! and registers schedules that pay a fixed amount to a recipient on a
//! cron cadence. The library holds the records, the derivation of their
//! addresses, and the transitions that create them and execute a cycle.
//! It performs no I/O: every transition returns the request that the
//! host has to carry out against the ledger or the trigger service.

pub mod accounts;
pub mod address;
pub mod auto;
pub mod bytes;
pub mod error;
pub mod instruction;
pub mod laws;
pub mod ledger;
pub mod processor;
pub mod state;
