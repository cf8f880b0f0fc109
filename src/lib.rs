//! Linear token vesting: an escrow that releases one denomination to a fixed
//! claimer over a fixed window, and a factory that deploys such escrows and
//! remembers which one belongs to which receiver.
//!
//! Everything here works on plain values; the host ledger (storage, balances,
//! message dispatch, address validation) is driven from outside.
pub mod contract;
pub mod error;
pub mod factory;
pub mod msg;
