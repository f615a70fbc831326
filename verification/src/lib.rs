//! Credit lines for the Creditra protocol, as a verified state machine.
//!
//! The contract keeps, per borrower, a credit line with a limit, the amount
//! drawn against it, an interest rate, a risk score and a lifecycle status.
//! Every operation is an exec function whose contract is the corresponding
//! transition of [`spec`]; the host-specific work (authorization checks of
//! the ledger, token transfers, event publication, storage) is handed back
//! to the caller as plain values.

pub mod account;
pub mod types;
pub mod error;
pub mod book;
pub mod events;
pub mod spec;
pub mod contract;
pub mod laws;
