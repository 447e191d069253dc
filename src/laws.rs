//! Properties of the ledger that relate several operations or hold of
//! every reachable state, proved from the operations' contracts.
use vstd::prelude::*;

use crate::errors::CrowdfundError;
use crate::math::{quadratic_match_spec, sum_roots};
use crate::vault::{Address, CrowdfundVaultContract};

verus! {

/// Every recorded contribution is non-negative.
pub proof fn lemma_contribution_nonneg(s: &CrowdfundVaultContract, project_id: u64, c: Address)
    requires
        s.wf(),
    ensures
        s.contribution(project_id, c) >= 0,
        s.contribution(project_id, c) == 0 <==> !s.contributors_of(project_id).contains(c),
{
    if s.has_project(project_id) {
        let rec = s.projects@[project_id as int];
        assert(rec.wf(project_id as int));
        if rec.contributions@.contains_key(c) {
            let k = choose|k: int| 0 <= k < rec.contributors@.len() && rec.contributors@[k] == c;
            assert(rec.contributions@.contains_key(rec.contributors@[k]));
        }
        if rec.contributors@.contains(c) {
            let k = choose|k: int| 0 <= k < rec.contributors@.len() && rec.contributors@[k] == c;
            assert(rec.contributions@.contains_key(rec.contributors@[k]));
        }
    }
}

/// A project's spendable balance is what was deposited (matching funds
/// included) minus what was withdrawn, and is never negative.
pub proof fn lemma_balance_accounting(s: &CrowdfundVaultContract, project_id: u64)
    requires
        s.wf(),
        s.has_project(project_id),
    ensures
        s.balance_of(project_id) >= 0,
        s.project(project_id).total_withdrawn >= 0,
        s.balance_of(project_id) + s.project(project_id).total_withdrawn == s.project(
            project_id,
        ).total_deposited,
{
    assert(s.projects@[project_id as int].wf(project_id as int));
}

/// A non-positive amount never succeeds in `deposit`, `withdraw`,
/// `fund_matching_pool` or `create_project`, and never changes the state;
/// once the checks that come before the amount pass, the error is
/// `InvalidAmount`.
pub proof fn lemma_non_positive_amount_rejected(
    s: &CrowdfundVaultContract,
    caller: Address,
    project_id: u64,
    amount: i128,
)
    requires
        amount <= 0,
    ensures
        forall|new: CrowdfundVaultContract, user_balance: i128, r: Result<bool, CrowdfundError>|
            #[trigger] s.deposit_outcome(&new, caller, project_id, amount, user_balance, r)
                ==> r.is_err() && new == *s,
        forall|new: CrowdfundVaultContract, r: Result<(), CrowdfundError>|
            #[trigger] s.withdraw_outcome(&new, project_id, amount, r) ==> r.is_err() && new
                == *s,
        forall|new: CrowdfundVaultContract, asset: Address, r: Result<(), CrowdfundError>|
            #[trigger] s.fund_matching_pool_outcome(&new, caller, asset, amount, r)
                ==> r.is_err() && new == *s,
        forall|
            new: CrowdfundVaultContract,
            name: String,
            asset: Address,
            r: Result<u64, CrowdfundError>,
        |
            #[trigger] s.create_project_outcome(&new, caller, name, amount, asset, r)
                ==> r.is_err() && new == *s,
        s.admin_spec().is_some() ==> s.create_error(amount) == Some(
            CrowdfundError::InvalidAmount,
        ),
        s.admin_spec().is_some() && !s.paused_spec() ==> s.deposit_error(project_id, amount)
            == Some(CrowdfundError::InvalidAmount),
        s.admin_spec().is_some() && !s.paused_spec() && s.has_project(project_id) && s.project(
            project_id,
        ).is_active ==> s.withdraw_error(project_id, amount) == Some(
            CrowdfundError::InvalidAmount,
        ),
        s.admin_spec() == Some(caller) ==> s.fund_error(caller, amount) == Some(
            CrowdfundError::InvalidAmount,
        ),
{
}

/// A second `initialize` fails with `AlreadyInitialized` and leaves the
/// ledger, and so its admin, as the first call left it.
pub proof fn lemma_initialize_once(
    s0: &CrowdfundVaultContract,
    s1: &CrowdfundVaultContract,
    s2: &CrowdfundVaultContract,
    first: Address,
    second: Address,
    r1: Result<(), CrowdfundError>,
    r2: Result<(), CrowdfundError>,
)
    requires
        s0.initialize_outcome(s1, first, r1),
        s1.initialize_outcome(s2, second, r2),
    ensures
        r2 == Err::<(), _>(CrowdfundError::AlreadyInitialized),
        *s2 == *s1,
        s2.admin_spec() == s1.admin_spec(),
        r1.is_ok() ==> s2.admin_spec() == Some(first),
{
}

/// Project ids are handed out in order from the number of projects that
/// exist: two successful creations return consecutive ids.
pub proof fn lemma_project_ids_sequential(
    s0: &CrowdfundVaultContract,
    s1: &CrowdfundVaultContract,
    s2: &CrowdfundVaultContract,
    owner: Address,
    name1: String,
    name2: String,
    target1: i128,
    target2: i128,
    asset: Address,
    r1: Result<u64, CrowdfundError>,
    r2: Result<u64, CrowdfundError>,
)
    requires
        s0.create_project_outcome(s1, owner, name1, target1, asset, r1),
        s1.create_project_outcome(s2, owner, name2, target2, asset, r2),
        r1.is_ok(),
        r2.is_ok(),
    ensures
        r1 == Ok::<_, CrowdfundError>(s0.project_count() as u64),
        r2 == Ok::<_, CrowdfundError>((s0.project_count() + 1) as u64),
        s2.project_count() == s0.project_count() + 2,
{
}

/// Two deposits by the same user to the same project take at most one
/// slot in the contributor index, and the user's contribution is their sum.
pub proof fn lemma_repeated_deposits(
    s0: &CrowdfundVaultContract,
    s1: &CrowdfundVaultContract,
    s2: &CrowdfundVaultContract,
    user: Address,
    project_id: u64,
    a1: i128,
    a2: i128,
    b1: i128,
    b2: i128,
    r1: Result<bool, CrowdfundError>,
    r2: Result<bool, CrowdfundError>,
)
    requires
        s0.wf(),
        s0.deposit_outcome(s1, user, project_id, a1, b1, r1),
        s1.deposit_outcome(s2, user, project_id, a2, b2, r2),
        r1.is_ok(),
        r2.is_ok(),
    ensures
        s2.contributors_of(project_id) == s1.contributors_of(project_id),
        s0.contribution(project_id, user) == 0 ==> s2.contributors_of(project_id).len()
            == s0.contributors_of(project_id).len() + 1,
        s0.contribution(project_id, user) != 0 ==> s2.contributors_of(project_id).len()
            == s0.contributors_of(project_id).len(),
        s2.contribution(project_id, user) == s0.contribution(project_id, user) + a1 + a2,
{
    lemma_contribution_nonneg(s0, project_id, user);
}

/// With no contributors the match is exactly 0.
pub proof fn lemma_no_contributors_no_match(s: &CrowdfundVaultContract, project_id: u64)
    requires
        s.contributors_of(project_id).len() == 0,
    ensures
        s.match_amount(project_id) == 0,
{
    assert(s.contribution_amounts(project_id) =~= Seq::<i128>::empty());
    assert(sum_roots(Seq::<i128>::empty()) == 0);
    assert(quadratic_match_spec(Seq::<i128>::empty()) == 0);
}

/// `distribute_match` moves no more than the pool of the project's asset
/// holds and no more than the match; when the match is at least the pool,
/// it empties the pool.
pub proof fn lemma_distribution_capped(
    s0: &CrowdfundVaultContract,
    s1: &CrowdfundVaultContract,
    project_id: u64,
    r: Result<i128, CrowdfundError>,
)
    requires
        s0.wf(),
        s0.distribute_match_outcome(s1, project_id, r),
    ensures
        r matches Ok(x) ==> {
            let asset = s0.project(project_id).token_address;
            &&& 0 <= x <= s0.pool(asset)
            &&& x <= s0.match_amount(project_id)
            &&& s1.pool(asset) == s0.pool(asset) - x
            &&& s0.match_amount(project_id) >= s0.pool(asset) ==> x == s0.pool(asset) && s1.pool(
                asset,
            ) == 0
        },
{
    if r.is_ok() {
        let asset = s0.project(project_id).token_address;
        if s0.matching_pools@.contains_key(asset) {
            assert(s0.matching_pools@[asset] >= 0);
        }
        s0.lemma_match_nonneg(project_id);
    }
}

/// Withdrawal is gated by milestone approval and bounded by the balance:
/// once the earlier checks pass, it fails with `MilestoneNotApproved`
/// before approval, with `InsufficientBalance` beyond the balance, and
/// otherwise succeeds and lowers the balance by exactly the amount.
pub proof fn lemma_withdraw_gated(
    s: &CrowdfundVaultContract,
    new: &CrowdfundVaultContract,
    project_id: u64,
    amount: i128,
    r: Result<(), CrowdfundError>,
)
    requires
        s.withdraw_outcome(new, project_id, amount, r),
        s.admin_spec().is_some(),
        !s.paused_spec(),
        s.has_project(project_id),
        s.project(project_id).is_active,
        amount > 0,
    ensures
        !s.approved(project_id) ==> r == Err::<(), _>(CrowdfundError::MilestoneNotApproved),
        s.approved(project_id) && s.balance_of(project_id) < amount ==> r == Err::<(), _>(
            CrowdfundError::InsufficientBalance,
        ),
        s.approved(project_id) && amount <= s.balance_of(project_id) ==> r.is_ok()
            && new.balance_of(project_id) == s.balance_of(project_id) - amount,
{
}

/// After a successful `approve_milestone` the project counts as approved.
pub proof fn lemma_approval_enables_withdraw(
    s0: &CrowdfundVaultContract,
    s1: &CrowdfundVaultContract,
    admin: Address,
    project_id: u64,
    r: Result<(), CrowdfundError>,
)
    requires
        s0.approve_milestone_outcome(s1, admin, project_id, r),
        r.is_ok(),
    ensures
        s1.approved(project_id),
        s1.withdraw_error(project_id, 1) != Some(CrowdfundError::MilestoneNotApproved),
{
}

/// Only the stored admin gets past the admin check: any other caller of
/// the admin operations fails with `Unauthorized` and changes nothing.
pub proof fn lemma_only_admin(
    s: &CrowdfundVaultContract,
    caller: Address,
    project_id: u64,
    contributor: Address,
)
    requires
        s.admin_spec().is_some(),
        s.admin_spec() != Some(caller),
    ensures
        forall|new: CrowdfundVaultContract, r: Result<(), CrowdfundError>|
            #[trigger] s.approve_milestone_outcome(&new, caller, project_id, r) ==> r == Err::<
                (),
                _,
            >(CrowdfundError::Unauthorized) && new == *s,
        forall|
            new: CrowdfundVaultContract,
            asset: Address,
            amount: i128,
            r: Result<(), CrowdfundError>,
        |
            #[trigger] s.fund_matching_pool_outcome(&new, caller, asset, amount, r) ==> r == Err::<
                (),
                _,
            >(CrowdfundError::Unauthorized) && new == *s,
        forall|new: CrowdfundVaultContract, change: i128, r: Result<(), CrowdfundError>|
            #[trigger] s.update_reputation_outcome(&new, caller, contributor, change, r) ==> r
                == Err::<(), _>(CrowdfundError::Unauthorized) && new == *s,
        forall|new: CrowdfundVaultContract, t: u64, r: Result<bool, CrowdfundError>|
            #[trigger] s.pause_outcome(&new, caller, t, r) ==> r == Err::<bool, _>(
                CrowdfundError::Unauthorized,
            ) && new == *s,
        forall|new: CrowdfundVaultContract, t: u64, r: Result<bool, CrowdfundError>|
            #[trigger] s.unpause_outcome(&new, caller, t, r) ==> r == Err::<bool, _>(
                CrowdfundError::Unauthorized,
            ) && new == *s,
        forall|new: CrowdfundVaultContract, next: Address, r: Result<(), CrowdfundError>|
            #[trigger] s.set_admin_outcome(&new, caller, next, r) ==> r == Err::<(), _>(
                CrowdfundError::Unauthorized,
            ) && new == *s,
        forall|new: CrowdfundVaultContract, hash: [u8; 32], r: Result<(), CrowdfundError>|
            #[trigger] s.upgrade_outcome(&new, caller, hash, r) ==> r == Err::<(), _>(
                CrowdfundError::Unauthorized,
            ) && new == *s,
{
}

/// Registration succeeds once per identity: the second attempt fails with
/// `AlreadyRegistered`, and a fresh registration starts at reputation 0.
pub proof fn lemma_register_once(
    s0: &CrowdfundVaultContract,
    s1: &CrowdfundVaultContract,
    s2: &CrowdfundVaultContract,
    contributor: Address,
    r1: Result<(), CrowdfundError>,
    r2: Result<(), CrowdfundError>,
)
    requires
        s0.register_contributor_outcome(s1, contributor, r1),
        s1.register_contributor_outcome(s2, contributor, r2),
    ensures
        r2 == Err::<(), _>(CrowdfundError::AlreadyRegistered),
        *s2 == *s1,
        r1.is_ok() ==> s2.reputation(contributor) == 0,
{
}

/// Reputation changes add up exactly: two successful updates move it by
/// the sum of their signed deltas.
pub proof fn lemma_reputation_accumulates(
    s0: &CrowdfundVaultContract,
    s1: &CrowdfundVaultContract,
    s2: &CrowdfundVaultContract,
    admin: Address,
    contributor: Address,
    d1: i128,
    d2: i128,
    r1: Result<(), CrowdfundError>,
    r2: Result<(), CrowdfundError>,
)
    requires
        s0.update_reputation_outcome(s1, admin, contributor, d1, r1),
        s1.update_reputation_outcome(s2, admin, contributor, d2, r2),
        r1.is_ok(),
        r2.is_ok(),
    ensures
        s2.reputation(contributor) == s0.reputation(contributor) + d1 + d2,
{
}

} // verus!
