//! The ledger's error kinds.
use vstd::prelude::*;

verus! {

/// Every failure of a ledger operation; a failed call changes nothing.
#[derive(Clone, Copy, Debug, PartialEq, Eq, Structural)]
pub enum CrowdfundError {
    NotInitialized,
    AlreadyInitialized,
    Unauthorized,
    ProjectNotFound,
    MilestoneNotApproved,
    InsufficientBalance,
    ProjectNotActive,
    InvalidAmount,
    AlreadyRegistered,
    ContributorNotFound,
    ContractPaused,
    ContractNotPaused,
}

} // verus!
