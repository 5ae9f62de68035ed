//! Proportional share accounting for a single-asset deposit vault.
//!
//! Users lock units of one fungible asset and receive claim tokens
//! ("shares") representing pro-rata ownership of the pooled balance;
//! shares are later burned for a proportional slice of the pool. This
//! crate holds the vault's ledger, the exchange-rate arithmetic that
//! converts between asset amounts and share amounts, and the
//! pause/admin gate in front of them, all with machine-checked
//! contracts. Moving tokens, minting and burning shares, and reading
//! the clock are the host environment's job: callers perform those
//! effects and hand this library plain values.

pub mod errors;
pub mod events;
pub mod exchange;
pub mod gate;
pub mod identity;
pub mod laws;
pub mod ledger;
