//! Resolution engine for conditional payments in a payment-channel network.
//!
//! A conditional payment promises to pay up to a capped amount once a list of
//! conditions (hash locks, or outcomes reported by boolean/numeric oracle
//! modules) is satisfied and combined by a declared aggregation rule.  This
//! crate computes the payable amount, enforces strict monotonicity and
//! deadline rules against the persisted resolution record, and commits the
//! new record.  The surrounding host supplies the collaborators (hashing,
//! signature verification, oracle modules, notification sink) through the
//! traits in [`interfaces`].

pub mod aggregation;
pub mod encoder;
pub mod interfaces;
pub mod laws;
pub mod pay_resolver;
pub mod registry;
pub mod types;
