//! A verified transactional state machine for a small on-chain community:
//! a membership registry, a marketplace with an automatically collected
//! sales levy, and a treasury-governance mechanism with time-bounded voting
//! and payouts allowed only after the deadline.
//!
//! The engine operates over a deterministic, address-keyed record store.
//! Each public operation is a self-contained, all-or-nothing transition:
//! it either commits every record mutation and balance transfer it makes,
//! or it returns an error and leaves the state exactly as it was.

pub mod errors;
pub mod records;
pub mod ledger;
pub mod laws;
