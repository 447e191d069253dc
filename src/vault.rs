//! The ledger: admin registry, projects, contributions, matching pools and
//! reputation, as one explicit state value.
use std::collections::HashMap;
use vstd::prelude::*;

use crate::errors::CrowdfundError;
use crate::events::VaultEvent;
use crate::math::{quadratic_match, quadratic_match_spec, saturating_square, sum_roots};

verus! {

broadcast use vstd::std_specs::hash::group_hash_axioms;

/// An account or contract identity, as a number assigned by the host.
pub type Address = u64;

/// A project as callers see it.
#[derive(Clone, Debug, PartialEq, Eq)]
pub struct ProjectData {
    pub id: u64,
    pub owner: Address,
    pub name: String,
    pub target_amount: i128,
    pub token_address: Address,
    pub total_deposited: i128,
    pub total_withdrawn: i128,
    pub is_active: bool,
}

impl ProjectData {
    /// Field-by-field equality, comparing names by their characters.
    pub open spec fn same_as(&self, other: &ProjectData) -> bool {
        &&& self.id == other.id
        &&& self.owner == other.owner
        &&& self.name@ == other.name@
        &&& self.target_amount == other.target_amount
        &&& self.token_address == other.token_address
        &&& self.total_deposited == other.total_deposited
        &&& self.total_withdrawn == other.total_withdrawn
        &&& self.is_active == other.is_active
    }
}

/// Everything the ledger keeps for one project.
pub(crate) struct ProjectRecord {
    pub(crate) data: ProjectData,
    /// Spendable balance in the project's asset.
    pub(crate) balance: i128,
    pub(crate) milestone_approved: bool,
    /// Distinct contributors, in the order of their first deposit.
    pub(crate) contributors: Vec<Address>,
    /// `amounts[i]` is the cumulative contribution of `contributors[i]`.
    pub(crate) amounts: Vec<i128>,
    /// The same contributions as a map from contributor to amount.
    pub(crate) contributions: Ghost<Map<Address, i128>>,
}

impl ProjectRecord {
    /// The record of project `id` is consistent: its balance and totals
    /// agree, and the contributor index, the amounts and the contribution
    /// map describe the same positive contributions.
    pub(crate) open spec fn wf(&self, id: int) -> bool {
        &&& self.data.id == id
        &&& self.data.target_amount > 0
        &&& self.data.total_withdrawn >= 0
        &&& self.balance >= 0
        &&& self.balance + self.data.total_withdrawn == self.data.total_deposited
        &&& self.contributors@.len() == self.amounts@.len()
        &&& self.contributors@.len() <= u32::MAX
        &&& self.contributors@.no_duplicates()
        &&& forall|i: int|
            0 <= i < self.contributors@.len() ==> {
                &&& self.contributions@.contains_key(#[trigger] self.contributors@[i])
                &&& self.contributions@[self.contributors@[i]] == self.amounts@[i]
            }
        &&& forall|c: Address| #[trigger]
            self.contributions@.contains_key(c) ==> self.contributors@.contains(c)
        &&& forall|i: int|
            0 <= i < self.amounts@.len() ==> 0 < #[trigger] self.amounts@[i]
                <= self.data.total_deposited
    }

    /// The contribution of `c` (0 if `c` has not contributed).
    pub(crate) open spec fn contribution_of(&self, c: Address) -> i128 {
        if self.contributions@.contains_key(c) {
            self.contributions@[c]
        } else {
            0
        }
    }

    /// Ordinal of `user` in the contributor index, if present.
    fn find_contributor(&self, user: Address) -> (r: Option<usize>)
        ensures
            match r {
                Some(i) => i < self.contributors@.len() && self.contributors@[i as int] == user,
                None => !self.contributors@.contains(user),
            },
    {
        let mut i: usize = 0;
        while i < self.contributors.len()
            invariant
                i <= self.contributors@.len(),
                forall|j: int| 0 <= j < i ==> self.contributors@[j] != user,
            decreases self.contributors@.len() - i,
        {
            if self.contributors[i] == user {
                return Some(i);
            }
            i = i + 1;
        }
        None
    }

    /// Books a deposit of `amount` by `user`: the balance, the project's
    /// total and the user's contribution grow by `amount`, and a first-time
    /// contributor is appended to the index.
    fn add_deposit(&mut self, id: Ghost<int>, user: Address, amount: i128)
        requires
            old(self).wf(id@),
            amount > 0,
            old(self).data.total_deposited + amount <= i128::MAX,
            !old(self).contributors@.contains(user) ==> old(self).contributors@.len() < u32::MAX,
        ensures
            final(self).wf(id@),
            final(self).data == (ProjectData {
                total_deposited: (old(self).data.total_deposited + amount) as i128,
                ..old(self).data
            }),
            final(self).balance == old(self).balance + amount,
            final(self).milestone_approved == old(self).milestone_approved,
            final(self).contributors@ == if old(self).contributors@.contains(user) {
                old(self).contributors@
            } else {
                old(self).contributors@.push(user)
            },
            final(self).contributions@ == old(self).contributions@.insert(
                user,
                (old(self).contribution_of(user) + amount) as i128,
            ),
    {
        self.balance = self.balance + amount;
        self.data.total_deposited = self.data.total_deposited + amount;
        let ghost new_amount = (self.contribution_of(user) + amount) as i128;
        match self.find_contributor(user) {
            Some(i) => {
                let cur = self.amounts[i];
                proof {
                    assert(self.contributions@[user] == cur);
                }
                self.amounts.set(i, cur + amount);
            },
            None => {
                proof {
                    assert(!self.contributions@.contains_key(user));
                }
                self.contributors.push(user);
                self.amounts.push(amount);
            },
        }
        self.contributions = Ghost(self.contributions@.insert(user, new_amount));
        proof {
            assert forall|i: int| 0 <= i < self.contributors@.len() implies {
                &&& self.contributions@.contains_key(#[trigger] self.contributors@[i])
                &&& self.contributions@[self.contributors@[i]] == self.amounts@[i]
            } by {
                if i < old(self).contributors@.len() {
                    assert(old(self).contributions@.contains_key(old(self).contributors@[i]));
                }
            }
            assert forall|c: Address| #[trigger]
                self.contributions@.contains_key(c) implies self.contributors@.contains(c) by {
                if c != user {
                    assert(old(self).contributors@.contains(c));
                    let k = choose|k: int| 0 <= k < old(self).contributors@.len()
                        && old(self).contributors@[k] == c;
                    assert(self.contributors@[k] == c);
                } else {
                    if old(self).contributors@.contains(user) {
                        let k = choose|k: int| 0 <= k < old(self).contributors@.len()
                            && old(self).contributors@[k] == c;
                        assert(self.contributors@[k] == c);
                    } else {
                        assert(self.contributors@[self.contributors@.len() - 1] == c);
                    }
                }
            }
        }
    }
}

/// The ledger context that every operation runs against.
pub struct CrowdfundVaultContract {
    pub(crate) admin: Option<Address>,
    pub(crate) paused: bool,
    /// Project `i` is stored at index `i`; ids are assigned in order.
    pub(crate) projects: Vec<ProjectRecord>,
    pub(crate) matching_pools: HashMap<Address, i128>,
    /// Registered contributors and their reputation.
    pub(crate) reputations: HashMap<Address, i128>,
    pub(crate) events: Vec<VaultEvent>,
}

impl CrowdfundVaultContract {
    // ----- the model -----

    /// The stored admin, once initialized.
    pub open(crate) spec fn admin_spec(&self) -> Option<Address> {
        self.admin
    }

    pub open(crate) spec fn paused_spec(&self) -> bool {
        self.paused
    }

    /// Number of projects created so far; also the next project id.
    pub open(crate) spec fn project_count(&self) -> nat {
        self.projects@.len()
    }

    pub open(crate) spec fn has_project(&self, id: u64) -> bool {
        id < self.projects@.len()
    }

    pub open(crate) spec fn project(&self, id: u64) -> ProjectData {
        self.projects@[id as int].data
    }

    pub open(crate) spec fn balance_of(&self, id: u64) -> i128 {
        self.projects@[id as int].balance
    }

    pub open(crate) spec fn approved(&self, id: u64) -> bool {
        self.projects@[id as int].milestone_approved
    }

    /// The contributor index of a project (empty for an unknown id).
    pub open(crate) spec fn contributors_of(&self, id: u64) -> Seq<Address> {
        if self.has_project(id) {
            self.projects@[id as int].contributors@
        } else {
            Seq::empty()
        }
    }

    /// Cumulative contribution of `c` to project `id` (0 if none).
    pub open(crate) spec fn contribution(&self, id: u64, c: Address) -> i128 {
        if self.has_project(id) && self.projects@[id as int].contributions@.contains_key(c) {
            self.projects@[id as int].contributions@[c]
        } else {
            0
        }
    }

    /// Contribution amounts by contributor ordinal (empty for an unknown id).
    pub open(crate) spec fn amounts_of(&self, id: u64) -> Seq<i128> {
        if self.has_project(id) {
            self.projects@[id as int].amounts@
        } else {
            Seq::empty()
        }
    }

    /// The matching pool of an asset (0 if never funded).
    pub open(crate) spec fn pool(&self, asset: Address) -> i128 {
        if self.matching_pools@.contains_key(asset) {
            self.matching_pools@[asset]
        } else {
            0
        }
    }

    pub open(crate) spec fn registered(&self, c: Address) -> bool {
        self.reputations@.contains_key(c)
    }

    pub open(crate) spec fn reputation(&self, c: Address) -> i128 {
        self.reputations@[c]
    }

    /// Notifications emitted so far, oldest first.
    pub open(crate) spec fn events_spec(&self) -> Seq<VaultEvent> {
        self.events@
    }

    /// The ledger's invariant.
    pub open(crate) spec fn wf(&self) -> bool {
        &&& forall|i: int|
            0 <= i < self.projects@.len() ==> (#[trigger] self.projects@[i]).wf(i)
        &&& self.projects@.len() <= u64::MAX
        &&& forall|a: Address| #[trigger]
            self.matching_pools@.contains_key(a) ==> self.matching_pools@[a] >= 0
    }

    /// The state is `old` with only the admin record changed.
    pub open(crate) spec fn admin_changed(&self, old: &Self) -> bool {
        &&& self.projects == old.projects
        &&& self.matching_pools == old.matching_pools
        &&& self.reputations == old.reputations
    }

    // ----- the admin registry -----

    /// An empty, uninitialized ledger.
    pub fn new() -> (r: Self)
        ensures
            r.wf(),
            r.admin_spec().is_none(),
            !r.paused_spec(),
            r.project_count() == 0,
            r.events_spec().len() == 0,
            forall|a: Address| r.pool(a) == 0,
            forall|c: Address| !r.registered(c),
    {
        CrowdfundVaultContract {
            admin: None,
            paused: false,
            projects: Vec::new(),
            matching_pools: HashMap::new(),
            reputations: HashMap::new(),
            events: Vec::new(),
        }
    }

    /// What a call of `initialize` from this state may leave and return.
    pub open(crate) spec fn initialize_outcome(
        &self,
        new: &Self,
        admin: Address,
        r: Result<(), CrowdfundError>,
    ) -> bool {
        &&& r == if self.admin_spec().is_some() {
            Err::<(), _>(CrowdfundError::AlreadyInitialized)
        } else {
            Ok(())
        }
        &&& r.is_err() ==> *new == *self
        &&& r.is_ok() ==> {
            &&& new.admin_spec() == Some(admin)
            &&& !new.paused_spec()
            &&& new.admin_changed(self)
            &&& new.events_spec() == self.events_spec().push(
                VaultEvent::Initialized { admin },
            )
        }
    }

    /// Stores `admin` and unpauses; fails if an admin is already stored.
    pub fn initialize(&mut self, admin: Address) -> (r: Result<(), CrowdfundError>)
        requires
            old(self).wf(),
        ensures
            final(self).wf(),
            old(self).initialize_outcome(final(self), admin, r),
    {
        if self.admin.is_some() {
            return Err(CrowdfundError::AlreadyInitialized);
        }
        self.admin = Some(admin);
        self.paused = false;
        self.events.push(VaultEvent::Initialized { admin });
        Ok(())
    }

    /// The admin check shared by admin-only operations.
    pub open(crate) spec fn admin_error(&self, caller: Address) -> Option<CrowdfundError> {
        match self.admin {
            None => Some(CrowdfundError::NotInitialized),
            Some(a) => if a != caller {
                Some(CrowdfundError::Unauthorized)
            } else {
                None
            },
        }
    }

    /// Fails with `NotInitialized` before initialization and with
    /// `Unauthorized` unless `caller` is the stored admin.
    pub fn verify_admin(&self, caller: Address) -> (r: Result<(), CrowdfundError>)
        ensures
            match self.admin_error(caller) {
                None => r.is_ok(),
                Some(e) => r == Err::<(), _>(e),
            },
    {
        match self.admin {
            None => Err(CrowdfundError::NotInitialized),
            Some(a) => if a != caller {
                Err(CrowdfundError::Unauthorized)
            } else {
                Ok(())
            },
        }
    }

    /// The stored admin.
    pub fn get_admin(&self) -> (r: Result<Address, CrowdfundError>)
        ensures
            match self.admin_spec() {
                None => r == Err::<Address, _>(CrowdfundError::NotInitialized),
                Some(a) => r == Ok::<_, CrowdfundError>(a),
            },
    {
        match self.admin {
            None => Err(CrowdfundError::NotInitialized),
            Some(a) => Ok(a),
        }
    }

    /// Whether the ledger is paused.
    pub fn require_not_paused(&self) -> (r: bool)
        ensures
            r == self.paused_spec(),
    {
        self.paused
    }

    /// What a call of `pause` from this state may leave and return.
    pub open(crate) spec fn pause_outcome(
        &self,
        new: &Self,
        admin: Address,
        timestamp: u64,
        r: Result<bool, CrowdfundError>,
    ) -> bool {
        &&& match self.admin_error(admin) {
            Some(e) => r == Err::<bool, _>(e),
            None => if self.paused_spec() {
                r == Err::<bool, _>(CrowdfundError::ContractPaused)
            } else {
                r == Ok::<_, CrowdfundError>(true)
            },
        }
        &&& r.is_err() ==> *new == *self
        &&& r.is_ok() ==> {
            &&& new.paused_spec()
            &&& new.admin_spec() == self.admin_spec()
            &&& new.admin_changed(self)
            &&& new.events_spec() == self.events_spec().push(
                VaultEvent::ContractPaused { admin, timestamp },
            )
        }
    }

    /// Pauses the ledger (admin only); fails with `ContractPaused` if it
    /// already is. Returns `true`.
    pub fn pause(&mut self, admin: Address, timestamp: u64) -> (r: Result<bool, CrowdfundError>)
        requires
            old(self).wf(),
        ensures
            final(self).wf(),
            old(self).pause_outcome(final(self), admin, timestamp, r),
    {
        self.verify_admin(admin)?;
        if self.paused {
            return Err(CrowdfundError::ContractPaused);
        }
        self.paused = true;
        self.events.push(VaultEvent::ContractPaused { admin, timestamp });
        Ok(true)
    }

    /// What a call of `unpause` from this state may leave and return.
    pub open(crate) spec fn unpause_outcome(
        &self,
        new: &Self,
        admin: Address,
        timestamp: u64,
        r: Result<bool, CrowdfundError>,
    ) -> bool {
        &&& match self.admin_error(admin) {
            Some(e) => r == Err::<bool, _>(e),
            None => if !self.paused_spec() {
                r == Err::<bool, _>(CrowdfundError::ContractNotPaused)
            } else {
                r == Ok::<_, CrowdfundError>(true)
            },
        }
        &&& r.is_err() ==> *new == *self
        &&& r.is_ok() ==> {
            &&& !new.paused_spec()
            &&& new.admin_spec() == self.admin_spec()
            &&& new.admin_changed(self)
            &&& new.events_spec() == self.events_spec().push(
                VaultEvent::ContractUnpaused { admin, timestamp },
            )
        }
    }

    /// Unpauses the ledger (admin only); fails with `ContractNotPaused` if it
    /// is not paused. Returns `true`.
    pub fn unpause(&mut self, admin: Address, timestamp: u64) -> (r: Result<bool, CrowdfundError>)
        requires
            old(self).wf(),
        ensures
            final(self).wf(),
            old(self).unpause_outcome(final(self), admin, timestamp, r),
    {
        self.verify_admin(admin)?;
        if !self.paused {
            return Err(CrowdfundError::ContractNotPaused);
        }
        self.paused = false;
        self.events.push(VaultEvent::ContractUnpaused { admin, timestamp });
        Ok(true)
    }

    /// What a call of `set_admin` from this state may leave and return.
    pub open(crate) spec fn set_admin_outcome(
        &self,
        new: &Self,
        current_admin: Address,
        new_admin: Address,
        r: Result<(), CrowdfundError>,
    ) -> bool {
        &&& match self.admin_error(current_admin) {
            Some(e) => r == Err::<(), _>(e),
            None => r.is_ok(),
        }
        &&& r.is_err() ==> *new == *self
        &&& r.is_ok() ==> {
            &&& new.admin_spec() == Some(new_admin)
            &&& new.paused_spec() == self.paused_spec()
            &&& new.admin_changed(self)
            &&& new.events_spec() == self.events_spec().push(
                VaultEvent::AdminChanged { old_admin: current_admin, new_admin },
            )
        }
    }

    /// Hands the admin role to `new_admin`, effective at once.
    pub fn set_admin(&mut self, current_admin: Address, new_admin: Address) -> (r: Result<
        (),
        CrowdfundError,
    >)
        requires
            old(self).wf(),
        ensures
            final(self).wf(),
            old(self).set_admin_outcome(final(self), current_admin, new_admin, r),
    {
        self.verify_admin(current_admin)?;
        self.admin = Some(new_admin);
        self.events.push(VaultEvent::AdminChanged { old_admin: current_admin, new_admin });
        Ok(())
    }

    /// What a call of `upgrade` from this state may leave and return.
    pub open(crate) spec fn upgrade_outcome(
        &self,
        new: &Self,
        caller: Address,
        new_wasm_hash: [u8; 32],
        r: Result<(), CrowdfundError>,
    ) -> bool {
        &&& match self.admin_error(caller) {
            Some(e) => r == Err::<(), _>(e),
            None => r.is_ok(),
        }
        &&& r.is_err() ==> *new == *self
        &&& r.is_ok() ==> {
            &&& new.admin_spec() == self.admin_spec()
            &&& new.paused_spec() == self.paused_spec()
            &&& new.admin_changed(self)
            &&& new.events_spec() == self.events_spec().push(
                VaultEvent::Upgraded { admin: caller, new_wasm_hash },
            )
        }
    }

    /// Authorizes an upgrade to `new_wasm_hash` (admin only) and records it;
    /// installing the new code is the host's work.
    pub fn upgrade(&mut self, caller: Address, new_wasm_hash: [u8; 32]) -> (r: Result<
        (),
        CrowdfundError,
    >)
        requires
            old(self).wf(),
        ensures
            final(self).wf(),
            old(self).upgrade_outcome(final(self), caller, new_wasm_hash, r),
    {
        self.verify_admin(caller)?;
        self.events.push(VaultEvent::Upgraded { admin: caller, new_wasm_hash });
        Ok(())
    }

    // ----- the project registry -----

    /// Frame: only project `id`'s record and the notifications changed.
    pub open(crate) spec fn only_project_changed(&self, old: &Self, id: u64) -> bool {
        &&& self.admin == old.admin
        &&& self.paused == old.paused
        &&& self.matching_pools == old.matching_pools
        &&& self.reputations == old.reputations
        &&& self.projects@.len() == old.projects@.len()
        &&& forall|q: int|
            0 <= q < self.projects@.len() && q != id ==> #[trigger] self.projects@[q]
                == old.projects@[q]
    }

    /// Frame: one project was appended and nothing else changed but the
    /// notifications.
    pub open(crate) spec fn project_appended(&self, old: &Self) -> bool {
        &&& self.admin == old.admin
        &&& self.paused == old.paused
        &&& self.matching_pools == old.matching_pools
        &&& self.reputations == old.reputations
        &&& self.projects@.len() == old.projects@.len() + 1
        &&& forall|q: int|
            0 <= q < old.projects@.len() ==> #[trigger] self.projects@[q] == old.projects@[q]
    }

    /// The first failing precondition of `create_project`.
    pub open(crate) spec fn create_error(&self, target_amount: i128) -> Option<CrowdfundError> {
        if self.admin.is_none() {
            Some(CrowdfundError::NotInitialized)
        } else if target_amount <= 0 {
            Some(CrowdfundError::InvalidAmount)
        } else if self.paused {
            Some(CrowdfundError::ContractPaused)
        } else {
            None
        }
    }

    /// What a call of `create_project` from this state may leave and return.
    pub open(crate) spec fn create_project_outcome(
        &self,
        new: &Self,
        owner: Address,
        name: String,
        target_amount: i128,
        token_address: Address,
        r: Result<u64, CrowdfundError>,
    ) -> bool {
        &&& match self.create_error(target_amount) {
            Some(e) => r == Err::<u64, _>(e),
            None => r == Ok::<_, CrowdfundError>(self.project_count() as u64),
        }
        &&& r.is_err() ==> *new == *self
        &&& r matches Ok(id) ==> {
            &&& new.project_count() == self.project_count() + 1
            &&& new.project(id) == (ProjectData {
                id,
                owner,
                name,
                target_amount,
                token_address,
                total_deposited: 0,
                total_withdrawn: 0,
                is_active: true,
            })
            &&& new.balance_of(id) == 0
            &&& !new.approved(id)
            &&& new.contributors_of(id).len() == 0
            &&& forall|c: Address| new.contribution(id, c) == 0
            &&& new.project_appended(self)
            &&& new.events_spec() == self.events_spec().push(
                VaultEvent::ProjectCreated { owner, token_address, project_id: id },
            )
        }
    }

    /// Creates an active project with zeroed totals, balance and approval,
    /// and returns its id: the number of projects created before it.
    pub fn create_project(
        &mut self,
        owner: Address,
        name: String,
        target_amount: i128,
        token_address: Address,
    ) -> (r: Result<u64, CrowdfundError>)
        requires
            old(self).wf(),
            old(self).project_count() < u64::MAX,
        ensures
            final(self).wf(),
            old(self).create_project_outcome(
                final(self),
                owner,
                name,
                target_amount,
                token_address,
                r,
            ),
    {
        if self.admin.is_none() {
            return Err(CrowdfundError::NotInitialized);
        }
        if target_amount <= 0 {
            return Err(CrowdfundError::InvalidAmount);
        }
        if self.paused {
            return Err(CrowdfundError::ContractPaused);
        }
        let project_id = self.projects.len() as u64;
        let record = ProjectRecord {
            data: ProjectData {
                id: project_id,
                owner,
                name,
                target_amount,
                token_address,
                total_deposited: 0,
                total_withdrawn: 0,
                is_active: true,
            },
            balance: 0,
            milestone_approved: false,
            contributors: Vec::new(),
            amounts: Vec::new(),
            contributions: Ghost(Map::empty()),
        };
        self.projects.push(record);
        self.events.push(VaultEvent::ProjectCreated { owner, token_address, project_id });
        proof {
            assert forall|i: int| 0 <= i < self.projects@.len() implies (
            #[trigger] self.projects@[i]).wf(i) by {
                if i < old(self).projects@.len() {
                    assert(old(self).projects@[i].wf(i));
                }
            }
        }
        Ok(project_id)
    }

    // ----- the contribution ledger -----

    /// The first failing precondition of `deposit`.
    pub open(crate) spec fn deposit_error(&self, project_id: u64, amount: i128) -> Option<
        CrowdfundError,
    > {
        if self.admin.is_none() {
            Some(CrowdfundError::NotInitialized)
        } else if self.paused {
            Some(CrowdfundError::ContractPaused)
        } else if amount <= 0 {
            Some(CrowdfundError::InvalidAmount)
        } else if !self.has_project(project_id) {
            Some(CrowdfundError::ProjectNotFound)
        } else if !self.project(project_id).is_active {
            Some(CrowdfundError::ProjectNotActive)
        } else {
            None
        }
    }

    /// A deposit that passes its checks keeps every total within `i128`
    /// and the contributor index within `u32`.
    pub open(crate) spec fn deposit_fits(
        &self,
        project_id: u64,
        user: Address,
        amount: i128,
    ) -> bool {
        self.deposit_error(project_id, amount).is_none() ==> {
            &&& self.project(project_id).total_deposited + amount <= i128::MAX
            &&& self.contribution(project_id, user) == 0 ==> self.contributors_of(project_id).len()
                < u32::MAX
        }
    }

    /// What a call of `deposit` from this state may leave and return.
    pub open(crate) spec fn deposit_outcome(
        &self,
        new: &Self,
        user: Address,
        project_id: u64,
        amount: i128,
        user_balance: i128,
        r: Result<bool, CrowdfundError>,
    ) -> bool {
        &&& match self.deposit_error(project_id, amount) {
            Some(e) => r == Err::<bool, _>(e),
            None => r == Ok::<_, CrowdfundError>(user_balance >= amount),
        }
        &&& r.is_err() ==> *new == *self
        &&& r.is_ok() ==> {
            &&& new.only_project_changed(self, project_id)
            &&& new.project(project_id) == (ProjectData {
                total_deposited: (self.project(project_id).total_deposited
                    + amount) as i128,
                ..self.project(project_id)
            })
            &&& new.balance_of(project_id) == self.balance_of(project_id) + amount
            &&& new.approved(project_id) == self.approved(project_id)
            &&& new.contributors_of(project_id) == if self.contribution(
                project_id,
                user,
            ) == 0 {
                self.contributors_of(project_id).push(user)
            } else {
                self.contributors_of(project_id)
            }
            &&& forall|c: Address|
                #[trigger] new.contribution(project_id, c) == if c == user {
                    self.contribution(project_id, c) + amount
                } else {
                    self.contribution(project_id, c) as int
                }
            &&& new.events_spec() == self.events_spec().push(
                VaultEvent::Deposit { user, project_id, amount },
            )
        }
    }

    /// Records a deposit of `amount` by `user` into project `project_id`.
    ///
    /// `user_balance` is the user's holding of the project's asset. The
    /// result is `Ok(true)` when that covers `amount`, and the host must then
    /// move `amount` of the asset from `user` to the vault; otherwise the
    /// deposit is booked without any transfer (`Ok(false)`). Either way the
    /// project balance, its total and the user's contribution grow by
    /// `amount`, and a first-time contributor joins the index.
    pub fn deposit(
        &mut self,
        user: Address,
        project_id: u64,
        amount: i128,
        user_balance: i128,
    ) -> (r: Result<bool, CrowdfundError>)
        requires
            old(self).wf(),
            old(self).deposit_fits(project_id, user, amount),
        ensures
            final(self).wf(),
            old(self).deposit_outcome(final(self), user, project_id, amount, user_balance, r),
    {
        if self.admin.is_none() {
            return Err(CrowdfundError::NotInitialized);
        }
        if self.paused {
            return Err(CrowdfundError::ContractPaused);
        }
        if amount <= 0 {
            return Err(CrowdfundError::InvalidAmount);
        }
        if project_id >= self.projects.len() as u64 {
            return Err(CrowdfundError::ProjectNotFound);
        }
        let idx = project_id as usize;
        if !self.projects[idx].data.is_active {
            return Err(CrowdfundError::ProjectNotActive);
        }
        let transfer = user_balance >= amount;
        proof {
            let rec = self.projects@[idx as int];
            assert(rec.wf(idx as int));
            if !rec.contributors@.contains(user) {
                assert(!rec.contributions@.contains_key(user));
            } else {
                let k = choose|k: int|
                    0 <= k < rec.contributors@.len() && rec.contributors@[k] == user;
                assert(rec.contributions@.contains_key(rec.contributors@[k]));
            }
        }
        let rec = &mut self.projects[idx];
        rec.add_deposit(Ghost(idx as int), user, amount);
        self.events.push(VaultEvent::Deposit { user, project_id, amount });
        proof {
            assert forall|i: int| 0 <= i < self.projects@.len() implies (
            #[trigger] self.projects@[i]).wf(i) by {
                assert(old(self).projects@[i].wf(i));
            }
        }
        Ok(transfer)
    }

    /// First failing precondition of `approve_milestone`.
    pub open(crate) spec fn approve_error(&self, admin: Address, project_id: u64) -> Option<
        CrowdfundError,
    > {
        if self.admin_error(admin).is_some() {
            self.admin_error(admin)
        } else if self.paused {
            Some(CrowdfundError::ContractPaused)
        } else if !self.has_project(project_id) {
            Some(CrowdfundError::ProjectNotFound)
        } else {
            None
        }
    }

    /// What a call of `approve_milestone` from this state may leave and return.
    pub open(crate) spec fn approve_milestone_outcome(
        &self,
        new: &Self,
        admin: Address,
        project_id: u64,
        r: Result<(), CrowdfundError>,
    ) -> bool {
        &&& match self.approve_error(admin, project_id) {
            Some(e) => r == Err::<(), _>(e),
            None => r.is_ok(),
        }
        &&& r.is_err() ==> *new == *self
        &&& r.is_ok() ==> {
            &&& new.only_project_changed(self, project_id)
            &&& new.approved(project_id)
            &&& new.project(project_id) == self.project(project_id)
            &&& new.balance_of(project_id) == self.balance_of(project_id)
            &&& new.contributors_of(project_id) == self.contributors_of(
                project_id,
            )
            &&& forall|c: Address|
                #[trigger] new.contribution(project_id, c) == self.contribution(project_id, c)
            &&& new.events_spec() == self.events_spec().push(
                VaultEvent::MilestoneApproved { admin, project_id },
            )
        }
    }

    /// Marks the project's milestone approved (admin only).
    pub fn approve_milestone(&mut self, admin: Address, project_id: u64) -> (r: Result<
        (),
        CrowdfundError,
    >)
        requires
            old(self).wf(),
        ensures
            final(self).wf(),
            old(self).approve_milestone_outcome(final(self), admin, project_id, r),
    {
        self.verify_admin(admin)?;
        if self.paused {
            return Err(CrowdfundError::ContractPaused);
        }
        if project_id >= self.projects.len() as u64 {
            return Err(CrowdfundError::ProjectNotFound);
        }
        let idx = project_id as usize;
        let rec = &mut self.projects[idx];
        rec.milestone_approved = true;
        self.events.push(VaultEvent::MilestoneApproved { admin, project_id });
        proof {
            assert forall|i: int| 0 <= i < self.projects@.len() implies (
            #[trigger] self.projects@[i]).wf(i) by {
                assert(old(self).projects@[i].wf(i));
            }
        }
        Ok(())
    }

    /// First failing precondition of `withdraw`.
    pub open(crate) spec fn withdraw_error(&self, project_id: u64, amount: i128) -> Option<
        CrowdfundError,
    > {
        if self.admin.is_none() {
            Some(CrowdfundError::NotInitialized)
        } else if self.paused {
            Some(CrowdfundError::ContractPaused)
        } else if !self.has_project(project_id) {
            Some(CrowdfundError::ProjectNotFound)
        } else if !self.project(project_id).is_active {
            Some(CrowdfundError::ProjectNotActive)
        } else if amount <= 0 {
            Some(CrowdfundError::InvalidAmount)
        } else if !self.approved(project_id) {
            Some(CrowdfundError::MilestoneNotApproved)
        } else if self.balance_of(project_id) < amount {
            Some(CrowdfundError::InsufficientBalance)
        } else {
            None
        }
    }

    /// What a call of `withdraw` from this state may leave and return.
    pub open(crate) spec fn withdraw_outcome(
        &self,
        new: &Self,
        project_id: u64,
        amount: i128,
        r: Result<(), CrowdfundError>,
    ) -> bool {
        &&& match self.withdraw_error(project_id, amount) {
            Some(e) => r == Err::<(), _>(e),
            None => r.is_ok(),
        }
        &&& r.is_err() ==> *new == *self
        &&& r.is_ok() ==> {
            &&& new.only_project_changed(self, project_id)
            &&& new.project(project_id) == (ProjectData {
                total_withdrawn: (self.project(project_id).total_withdrawn
                    + amount) as i128,
                ..self.project(project_id)
            })
            &&& new.balance_of(project_id) == self.balance_of(project_id) - amount
            &&& new.approved(project_id) == self.approved(project_id)
            &&& new.contributors_of(project_id) == self.contributors_of(
                project_id,
            )
            &&& forall|c: Address|
                #[trigger] new.contribution(project_id, c) == self.contribution(project_id, c)
            &&& new.events_spec() == self.events_spec().push(
                VaultEvent::Withdraw {
                    owner: self.project(project_id).owner,
                    project_id,
                    amount,
                },
            )
        }
    }

    /// Pays `amount` out of an approved project's balance to its owner.
    ///
    /// On success the host must move `amount` of the project's asset from
    /// the vault to the owner, with the owner's consent.
    pub fn withdraw(&mut self, project_id: u64, amount: i128) -> (r: Result<(), CrowdfundError>)
        requires
            old(self).wf(),
        ensures
            final(self).wf(),
            old(self).withdraw_outcome(final(self), project_id, amount, r),
    {
        if self.admin.is_none() {
            return Err(CrowdfundError::NotInitialized);
        }
        if self.paused {
            return Err(CrowdfundError::ContractPaused);
        }
        if project_id >= self.projects.len() as u64 {
            return Err(CrowdfundError::ProjectNotFound);
        }
        let idx = project_id as usize;
        if !self.projects[idx].data.is_active {
            return Err(CrowdfundError::ProjectNotActive);
        }
        if amount <= 0 {
            return Err(CrowdfundError::InvalidAmount);
        }
        if !self.projects[idx].milestone_approved {
            return Err(CrowdfundError::MilestoneNotApproved);
        }
        if self.projects[idx].balance < amount {
            return Err(CrowdfundError::InsufficientBalance);
        }
        proof {
            assert(self.projects@[idx as int].wf(idx as int));
        }
        let owner = self.projects[idx].data.owner;
        let rec = &mut self.projects[idx];
        rec.balance = rec.balance - amount;
        rec.data.total_withdrawn = rec.data.total_withdrawn + amount;
        self.events.push(VaultEvent::Withdraw { owner, project_id, amount });
        proof {
            assert forall|i: int| 0 <= i < self.projects@.len() implies (
            #[trigger] self.projects@[i]).wf(i) by {
                assert(old(self).projects@[i].wf(i));
            }
        }
        Ok(())
    }

    /// The project with the given id.
    pub fn get_project(&self, project_id: u64) -> (r: Result<ProjectData, CrowdfundError>)
        ensures
            !self.has_project(project_id) ==> r == Err::<ProjectData, _>(
                CrowdfundError::ProjectNotFound,
            ),
            self.has_project(project_id) ==> (r matches Ok(p) && p.same_as(
                &self.project(project_id),
            )),
    {
        if project_id >= self.projects.len() as u64 {
            return Err(CrowdfundError::ProjectNotFound);
        }
        let d = &self.projects[project_id as usize].data;
        Ok(
            ProjectData {
                id: d.id,
                owner: d.owner,
                name: d.name.clone(),
                target_amount: d.target_amount,
                token_address: d.token_address,
                total_deposited: d.total_deposited,
                total_withdrawn: d.total_withdrawn,
                is_active: d.is_active,
            },
        )
    }

    /// The project's spendable balance.
    pub fn get_balance(&self, project_id: u64) -> (r: Result<i128, CrowdfundError>)
        ensures
            !self.has_project(project_id) ==> r == Err::<i128, _>(CrowdfundError::ProjectNotFound),
            self.has_project(project_id) ==> r == Ok::<_, CrowdfundError>(
                self.balance_of(project_id),
            ),
    {
        if project_id >= self.projects.len() as u64 {
            return Err(CrowdfundError::ProjectNotFound);
        }
        Ok(self.projects[project_id as usize].balance)
    }

    /// Whether the project's milestone has been approved.
    pub fn is_milestone_approved(&self, project_id: u64) -> (r: Result<bool, CrowdfundError>)
        ensures
            !self.has_project(project_id) ==> r == Err::<bool, _>(CrowdfundError::ProjectNotFound),
            self.has_project(project_id) ==> r == Ok::<_, CrowdfundError>(
                self.approved(project_id),
            ),
    {
        if project_id >= self.projects.len() as u64 {
            return Err(CrowdfundError::ProjectNotFound);
        }
        Ok(self.projects[project_id as usize].milestone_approved)
    }

    /// Cumulative contribution of `contributor` to the project.
    pub fn get_contribution(&self, project_id: u64, contributor: Address) -> (r: Result<
        i128,
        CrowdfundError,
    >)
        requires
            self.wf(),
        ensures
            self.admin_spec().is_none() ==> r == Err::<i128, _>(CrowdfundError::NotInitialized),
            self.admin_spec().is_some() && !self.has_project(project_id) ==> r == Err::<i128, _>(
                CrowdfundError::ProjectNotFound,
            ),
            self.admin_spec().is_some() && self.has_project(project_id) ==> r == Ok::<
                _,
                CrowdfundError,
            >(self.contribution(project_id, contributor)),
    {
        if self.admin.is_none() {
            return Err(CrowdfundError::NotInitialized);
        }
        if project_id >= self.projects.len() as u64 {
            return Err(CrowdfundError::ProjectNotFound);
        }
        let rec = &self.projects[project_id as usize];
        proof {
            assert(rec.wf(project_id as int));
        }
        match rec.find_contributor(contributor) {
            Some(i) => Ok(rec.amounts[i]),
            None => {
                proof {
                    if rec.contributions@.contains_key(contributor) {
                        assert(rec.contributors@.contains(contributor));
                    }
                }
                Ok(0)
            },
        }
    }

    /// Number of distinct contributors to the project.
    pub fn get_contributor_count(&self, project_id: u64) -> (r: Result<u32, CrowdfundError>)
        requires
            self.wf(),
        ensures
            self.admin_spec().is_none() ==> r == Err::<u32, _>(CrowdfundError::NotInitialized),
            self.admin_spec().is_some() && !self.has_project(project_id) ==> r == Err::<u32, _>(
                CrowdfundError::ProjectNotFound,
            ),
            self.admin_spec().is_some() && self.has_project(project_id) ==> r == Ok::<
                _,
                CrowdfundError,
            >(self.contributors_of(project_id).len() as u32),
    {
        if self.admin.is_none() {
            return Err(CrowdfundError::NotInitialized);
        }
        if project_id >= self.projects.len() as u64 {
            return Err(CrowdfundError::ProjectNotFound);
        }
        Ok(self.projects[project_id as usize].contributors.len() as u32)
    }

    // ----- the matching engine -----

    /// Contributions by contributor ordinal.
    pub open(crate) spec fn contribution_amounts(&self, project_id: u64) -> Seq<i128> {
        self.contributors_of(project_id).map_values(|c: Address| self.contribution(project_id, c))
    }

    /// The project's quadratic-funding match (0 for an unknown project).
    pub open(crate) spec fn match_amount(&self, project_id: u64) -> int {
        quadratic_match_spec(self.contribution_amounts(project_id))
    }

    /// Computes `(Σ sqrt(contribution))^2` over the project's contributors
    /// in scaled arithmetic; 0 when there are none.
    pub fn calculate_match(&self, project_id: u64) -> (r: Result<i128, CrowdfundError>)
        requires
            self.wf(),
        ensures
            self.admin_spec().is_none() ==> r == Err::<i128, _>(CrowdfundError::NotInitialized),
            self.admin_spec().is_some() ==> r == Ok::<_, CrowdfundError>(
                self.match_amount(project_id) as i128,
            ),
            self.match_amount(project_id) >= 0,
    {
        proof {
            self.lemma_amounts(project_id);
            assert(quadratic_match_spec(Seq::<i128>::empty()) == 0);
        }
        if self.admin.is_none() {
            return Err(CrowdfundError::NotInitialized);
        }
        if project_id >= self.projects.len() as u64 {
            return Ok(0);
        }
        let rec = &self.projects[project_id as usize];
        if rec.contributors.len() == 0 {
            return Ok(0);
        }
        Ok(quadratic_match(rec.amounts.as_slice()))
    }

    /// The stored amounts are the contributions by ordinal, and the match is
    /// a non-negative `i128`.
    proof fn lemma_amounts(&self, project_id: u64)
        requires
            self.wf(),
        ensures
            self.has_project(project_id) ==> self.contribution_amounts(project_id)
                == self.projects@[project_id as int].amounts@,
            self.contributors_of(project_id).len() == self.contribution_amounts(project_id).len(),
            0 <= self.match_amount(project_id) <= i128::MAX,
    {
        if self.has_project(project_id) {
            let rec = self.projects@[project_id as int];
            assert(rec.wf(project_id as int));
            assert(self.contribution_amounts(project_id) =~= rec.amounts@);
        }
        let q = saturating_square(sum_roots(self.contribution_amounts(project_id)));
        assert(q >= 0) by (nonlinear_arith)
            requires
                q == saturating_square(sum_roots(self.contribution_amounts(project_id))),
        ;
    }

    /// Frame: only the matching pool of `asset` changed.
    pub open(crate) spec fn only_pool_changed(&self, old: &Self, asset: Address) -> bool {
        &&& self.admin == old.admin
        &&& self.paused == old.paused
        &&& self.projects == old.projects
        &&& self.reputations == old.reputations
        &&& self.events == old.events
        &&& forall|a: Address| a != asset ==> #[trigger] self.pool(a) == old.pool(a)
    }

    /// First failing precondition of `fund_matching_pool`.
    pub open(crate) spec fn fund_error(&self, admin: Address, amount: i128) -> Option<
        CrowdfundError,
    > {
        if self.admin_error(admin).is_some() {
            self.admin_error(admin)
        } else if amount <= 0 {
            Some(CrowdfundError::InvalidAmount)
        } else {
            None
        }
    }

    /// What a call of `fund_matching_pool` from this state may leave and return.
    pub open(crate) spec fn fund_matching_pool_outcome(
        &self,
        new: &Self,
        admin: Address,
        token_address: Address,
        amount: i128,
        r: Result<(), CrowdfundError>,
    ) -> bool {
        &&& match self.fund_error(admin, amount) {
            Some(e) => r == Err::<(), _>(e),
            None => r.is_ok(),
        }
        &&& r.is_err() ==> *new == *self
        &&& r.is_ok() ==> {
            &&& new.only_pool_changed(self, token_address)
            &&& new.pool(token_address) == self.pool(token_address) + amount
        }
    }

    /// Adds `amount` to the matching pool of `token_address` (admin only).
    /// This is bookkeeping alone: no asset transfer backs it.
    pub fn fund_matching_pool(
        &mut self,
        admin: Address,
        token_address: Address,
        amount: i128,
    ) -> (r: Result<(), CrowdfundError>)
        requires
            old(self).wf(),
            old(self).fund_error(admin, amount).is_none() ==> old(self).pool(token_address)
                + amount <= i128::MAX,
        ensures
            final(self).wf(),
            old(self).fund_matching_pool_outcome(final(self), admin, token_address, amount, r),
    {
        self.verify_admin(admin)?;
        if amount <= 0 {
            return Err(CrowdfundError::InvalidAmount);
        }
        let current = self.get_pool(token_address);
        self.matching_pools.insert(token_address, current + amount);
        Ok(())
    }

    fn get_pool(&self, asset: Address) -> (r: i128)
        ensures
            r == self.pool(asset),
    {
        match self.matching_pools.get(&asset) {
            Some(v) => *v,
            None => 0,
        }
    }

    /// The matching pool of `token_address`.
    pub fn get_matching_pool_balance(&self, token_address: Address) -> (r: Result<
        i128,
        CrowdfundError,
    >)
        ensures
            self.admin_spec().is_none() ==> r == Err::<i128, _>(CrowdfundError::NotInitialized),
            self.admin_spec().is_some() ==> r == Ok::<_, CrowdfundError>(self.pool(token_address)),
    {
        if self.admin.is_none() {
            return Err(CrowdfundError::NotInitialized);
        }
        Ok(self.get_pool(token_address))
    }

    /// What `distribute_match` moves: the match, capped by the pool of the
    /// project's asset.
    pub open(crate) spec fn distribution(&self, project_id: u64) -> int {
        let m = self.match_amount(project_id);
        let p = self.pool(self.project(project_id).token_address) as int;
        if m <= 0 {
            0
        } else if p < m {
            if p <= 0 {
                0
            } else {
                p
            }
        } else {
            m
        }
    }

    /// Frame: only project `id`'s record and the pool of `asset` changed.
    pub open(crate) spec fn only_project_and_pool_changed(
        &self,
        old: &Self,
        id: u64,
        asset: Address,
    ) -> bool {
        &&& self.admin == old.admin
        &&& self.paused == old.paused
        &&& self.reputations == old.reputations
        &&& self.events == old.events
        &&& self.projects@.len() == old.projects@.len()
        &&& forall|q: int|
            0 <= q < self.projects@.len() && q != id ==> #[trigger] self.projects@[q]
                == old.projects@[q]
        &&& forall|a: Address| a != asset ==> #[trigger] self.pool(a) == old.pool(a)
    }

    /// First failing precondition of `distribute_match`.
    pub open(crate) spec fn distribute_error(&self, project_id: u64) -> Option<CrowdfundError> {
        if self.admin.is_none() {
            Some(CrowdfundError::NotInitialized)
        } else if !self.has_project(project_id) {
            Some(CrowdfundError::ProjectNotFound)
        } else {
            None
        }
    }

    /// What a call of `distribute_match` from this state may leave and return.
    pub open(crate) spec fn distribute_match_outcome(
        &self,
        new: &Self,
        project_id: u64,
        r: Result<i128, CrowdfundError>,
    ) -> bool {
        &&& match self.distribute_error(project_id) {
            Some(e) => r == Err::<i128, _>(e),
            None => r == Ok::<_, CrowdfundError>(self.distribution(project_id) as i128),
        }
        &&& r.is_err() || r == Ok::<_, CrowdfundError>(0i128) ==> *new == *self
        &&& r.is_ok() && self.distribution(project_id) > 0 ==> {
            let x = self.distribution(project_id);
            let asset = self.project(project_id).token_address;
            &&& new.only_project_and_pool_changed(self, project_id, asset)
            &&& new.pool(asset) == self.pool(asset) - x
            &&& new.balance_of(project_id) == self.balance_of(project_id) + x
            &&& new.project(project_id) == (ProjectData {
                total_deposited: (self.project(project_id).total_deposited + x) as i128,
                ..self.project(project_id)
            })
            &&& new.approved(project_id) == self.approved(project_id)
            &&& new.contributors_of(project_id) == self.contributors_of(
                project_id,
            )
            &&& forall|c: Address|
                #[trigger] new.contribution(project_id, c) == self.contribution(project_id, c)
        }
    }

    /// Moves the project's match, capped by what the pool of its asset holds,
    /// from that pool into the project's balance and total, and returns the
    /// amount moved.
    pub fn distribute_match(&mut self, project_id: u64) -> (r: Result<i128, CrowdfundError>)
        requires
            old(self).wf(),
            old(self).distribute_error(project_id).is_none() ==> old(self).project(
                project_id,
            ).total_deposited + old(self).distribution(project_id) <= i128::MAX,
        ensures
            final(self).wf(),
            old(self).distribute_match_outcome(final(self), project_id, r),
    {
        if self.admin.is_none() {
            return Err(CrowdfundError::NotInitialized);
        }
        if project_id >= self.projects.len() as u64 {
            return Err(CrowdfundError::ProjectNotFound);
        }
        let match_amount = match self.calculate_match(project_id) {
            Ok(m) => m,
            Err(e) => return Err(e),
        };
        if match_amount <= 0 {
            return Ok(0);
        }
        let idx = project_id as usize;
        let asset = self.projects[idx].data.token_address;
        let pool_balance = self.get_pool(asset);
        let actual = if pool_balance < match_amount {
            pool_balance
        } else {
            match_amount
        };
        if actual <= 0 {
            return Ok(0);
        }
        proof {
            assert(self.projects@[idx as int].wf(idx as int));
        }
        self.matching_pools.insert(asset, pool_balance - actual);
        let rec = &mut self.projects[idx];
        rec.balance = rec.balance + actual;
        rec.data.total_deposited = rec.data.total_deposited + actual;
        proof {
            assert forall|i: int| 0 <= i < self.projects@.len() implies (
            #[trigger] self.projects@[i]).wf(i) by {
                assert(old(self).projects@[i].wf(i));
            }
        }
        Ok(actual)
    }

    // ----- the reputation ledger -----

    /// Frame: only the reputation record of `c` and the notifications changed.
    pub open(crate) spec fn only_reputation_changed(&self, old: &Self, c: Address) -> bool {
        &&& self.admin == old.admin
        &&& self.paused == old.paused
        &&& self.projects == old.projects
        &&& self.matching_pools == old.matching_pools
        &&& forall|d: Address|
            d != c ==> #[trigger] self.registered(d) == old.registered(d) && (old.registered(d)
                ==> self.reputation(d) == old.reputation(d))
    }

    /// What a call of `register_contributor` from this state may leave and return.
    pub open(crate) spec fn register_contributor_outcome(
        &self,
        new: &Self,
        contributor: Address,
        r: Result<(), CrowdfundError>,
    ) -> bool {
        &&& r == if self.registered(contributor) {
            Err::<(), _>(CrowdfundError::AlreadyRegistered)
        } else {
            Ok(())
        }
        &&& r.is_err() ==> *new == *self
        &&& r.is_ok() ==> {
            &&& new.only_reputation_changed(self, contributor)
            &&& new.registered(contributor)
            &&& new.reputation(contributor) == 0
            &&& new.events_spec() == self.events_spec().push(
                VaultEvent::ContributorRegistered { contributor },
            )
        }
    }

    /// Registers `contributor` with reputation 0.
    pub fn register_contributor(&mut self, contributor: Address) -> (r: Result<(), CrowdfundError>)
        requires
            old(self).wf(),
        ensures
            final(self).wf(),
            old(self).register_contributor_outcome(final(self), contributor, r),
    {
        if self.reputations.contains_key(&contributor) {
            return Err(CrowdfundError::AlreadyRegistered);
        }
        self.reputations.insert(contributor, 0);
        self.events.push(VaultEvent::ContributorRegistered { contributor });
        Ok(())
    }

    /// First failing precondition of `update_reputation`.
    pub open(crate) spec fn reputation_error(&self, admin: Address, contributor: Address) -> Option<
        CrowdfundError,
    > {
        if self.admin_error(admin).is_some() {
            self.admin_error(admin)
        } else if !self.registered(contributor) {
            Some(CrowdfundError::ContributorNotFound)
        } else {
            None
        }
    }

    /// What a call of `update_reputation` from this state may leave and return.
    pub open(crate) spec fn update_reputation_outcome(
        &self,
        new: &Self,
        admin: Address,
        contributor: Address,
        change: i128,
        r: Result<(), CrowdfundError>,
    ) -> bool {
        &&& match self.reputation_error(admin, contributor) {
            Some(e) => r == Err::<(), _>(e),
            None => r.is_ok(),
        }
        &&& r.is_err() ==> *new == *self
        &&& r.is_ok() ==> {
            &&& new.only_reputation_changed(self, contributor)
            &&& new.registered(contributor)
            &&& new.reputation(contributor) == self.reputation(contributor)
                + change
            &&& new.events_spec() == self.events_spec().push(
                VaultEvent::ReputationUpdated {
                    contributor,
                    old_reputation: self.reputation(contributor),
                    new_reputation: (self.reputation(contributor) + change) as i128,
                },
            )
        }
    }

    /// Adds the signed `change` to a registered contributor's reputation
    /// (admin only).
    pub fn update_reputation(&mut self, admin: Address, contributor: Address, change: i128) -> (r:
        Result<(), CrowdfundError>)
        requires
            old(self).wf(),
            old(self).reputation_error(admin, contributor).is_none() ==> i128::MIN <= old(
                self,
            ).reputation(contributor) + change <= i128::MAX,
        ensures
            final(self).wf(),
            old(self).update_reputation_outcome(final(self), admin, contributor, change, r),
    {
        self.verify_admin(admin)?;
        let old_reputation = match self.reputations.get(&contributor) {
            Some(v) => *v,
            None => return Err(CrowdfundError::ContributorNotFound),
        };
        let new_reputation = old_reputation + change;
        self.reputations.insert(contributor, new_reputation);
        self.events.push(
            VaultEvent::ReputationUpdated { contributor, old_reputation, new_reputation },
        );
        Ok(())
    }

    /// A registered contributor's reputation.
    pub fn get_reputation(&self, contributor: Address) -> (r: Result<i128, CrowdfundError>)
        ensures
            !self.registered(contributor) ==> r == Err::<i128, _>(
                CrowdfundError::ContributorNotFound,
            ),
            self.registered(contributor) ==> r == Ok::<_, CrowdfundError>(
                self.reputation(contributor),
            ),
    {
        match self.reputations.get(&contributor) {
            Some(v) => Ok(*v),
            None => Err(CrowdfundError::ContributorNotFound),
        }
    }

    /// Notifications emitted so far, oldest first.
    pub fn events(&self) -> (r: &Vec<VaultEvent>)
        ensures
            r@ == self.events_spec(),
    {
        &self.events
    }

    /// The match is never negative.
    pub proof fn lemma_match_nonneg(&self, project_id: u64)
        requires
            self.wf(),
        ensures
            0 <= self.match_amount(project_id) <= i128::MAX,
    {
        self.lemma_amounts(project_id);
    }
}

} // verus!
