//! A threshold-authorization engine and a milestone-based escrow state
//! machine for a two-party (client/freelancer) project payment arrangement,
//! mediated by a neutral observer.
//!
//! Identities, record addresses and the custodial fund balance are modeled
//! as plain values; the surrounding ledger platform (durable record storage,
//! the value-transfer primitive, caller-identity verification) is expected
//! to sit around this library and act on the amounts it returns.

pub mod errors;
pub mod multisig;
pub mod project;
pub mod state;
pub mod utils;
