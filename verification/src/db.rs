//! Persisting the records of one block as a single atomic write.

pub mod coordinator;
pub mod ledger;
pub mod transaction;
