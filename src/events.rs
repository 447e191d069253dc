//! Notifications the ledger emits, in the order its operations succeed.
use vstd::prelude::*;

use crate::vault::Address;

verus! {

/// One notification for external indexers; the ledger never reads them back.
#[derive(Clone, Debug, PartialEq, Eq)]
pub enum VaultEvent {
    Initialized { admin: Address },
    ProjectCreated { owner: Address, token_address: Address, project_id: u64 },
    Deposit { user: Address, project_id: u64, amount: i128 },
    MilestoneApproved { admin: Address, project_id: u64 },
    Withdraw { owner: Address, project_id: u64, amount: i128 },
    ContributorRegistered { contributor: Address },
    ReputationUpdated { contributor: Address, old_reputation: i128, new_reputation: i128 },
    ContractPaused { admin: Address, timestamp: u64 },
    ContractUnpaused { admin: Address, timestamp: u64 },
    Upgraded { admin: Address, new_wasm_hash: [u8; 32] },
    AdminChanged { old_admin: Address, new_admin: Address },
}

} // verus!
