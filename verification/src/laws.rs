//! What holds of whole runs, whatever the host answers.
pub mod addresses;
pub mod call_effects;
pub mod calls;
pub mod checks;
pub mod creation_effects;
pub mod creations;
pub mod executions;
pub mod outcomes;
pub mod receipts;
pub mod rollback;
pub mod settlements;
pub mod tally;
pub mod transaction_effects;
pub mod transactions;
pub mod views;
