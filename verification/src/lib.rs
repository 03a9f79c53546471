//! A small ledger-state component: a single-owner access-control guard with a
//! transfer/renounce state machine, a greeting-mutation service with counter
//! invariants and a value-derived premium flag, an owner-gated withdrawal
//! decision, and deterministic batch portfolio queries over externally
//! supplied balances.
//!
//! The hosting environment (caller identity, attached value, account
//! balances, the native-currency transfer primitive) is passed in explicitly
//! as plain values, so every operation here is a pure, verified function of
//! its inputs.

pub mod address;
pub mod contract;
pub mod counters;
pub mod env;
pub mod error;
pub mod ownable;
pub mod portfolio;
