//! A small art marketplace ledger: numbered art items are minted, owned by one
//! account at a time and bought against per-account balances, beside an
//! unrelated counter. Every handler is a verified state transition that
//! validates before it writes.

pub mod contract;
pub mod error;
pub mod laws;
pub mod msg;
pub mod response;
pub mod state;
