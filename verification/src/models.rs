//! The canonical ledger-entry model.

pub mod transaction;
