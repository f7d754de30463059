//! Deterministic-address account provisioning for a token-vesting program.
//!
//! The library derives stable, canonically bumped addresses for a company's
//! vesting record and its treasury token account, models the ledger host's
//! allocation and funding rules, and provisions both accounts atomically.

pub mod address;
pub mod laws;
pub mod derive;
pub mod ledger;
pub mod provision;
pub mod record;
