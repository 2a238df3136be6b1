//! Share accounting for a proportional-share custody vault.
//!
//! Depositors hand units of a fungible asset to a pooled custody account and
//! receive shares recording their proportional claim; burning shares later
//! redeems a proportional slice of the pool.  This crate holds the accounting
//! engine itself — the checked arithmetic, the share/asset conversions, the
//! pause state machine, and the per-depositor position ledger — with the
//! external collaborators (asset transfer, signature checks, event delivery)
//! left to the hosting process.

pub mod accounts;
pub mod engine;
pub mod errors;
pub mod events;
pub mod laws;
pub mod math;
pub mod pool;
pub mod state;
pub mod store;
