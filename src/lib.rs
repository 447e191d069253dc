//! A quadratic-funding crowdfunding ledger with verified bookkeeping.
//!
//! The ledger tracks projects, per-contributor deposits, a per-asset
//! matching pool, milestone-gated withdrawals and contributor reputation.
//! Moving assets, checking a principal's consent and delivering
//! notifications are the host's work: operations report the transfer
//! they need and append the notifications they emit.

pub mod errors;
pub mod events;
pub mod laws;
pub mod math;
pub mod vault;

pub use errors::CrowdfundError;
pub use events::VaultEvent;
pub use vault::{Address, CrowdfundVaultContract, ProjectData};
