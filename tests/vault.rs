use crowdfund_vault::{Address, CrowdfundError, CrowdfundVaultContract, VaultEvent};

const ADMIN: Address = 1;
const OWNER: Address = 2;
const USER: Address = 3;
const TOKEN: Address = 100;
/// What USER holds of TOKEN.
const USER_FUNDS: i128 = 10_000_000;

fn setup() -> CrowdfundVaultContract {
    CrowdfundVaultContract::new()
}

fn setup_with_project() -> (CrowdfundVaultContract, u64) {
    let mut vault = setup();
    vault.initialize(ADMIN).unwrap();
    let id = vault
        .create_project(OWNER, "TestProj".to_string(), 1_000_000, TOKEN)
        .unwrap();
    (vault, id)
}

#[test]
fn test_initialize() {
    let mut vault = setup();
    vault.initialize(ADMIN).unwrap();
    assert_eq!(vault.get_admin(), Ok(ADMIN));
}

#[test]
fn test_double_initialization_fails() {
    let mut vault = setup();
    vault.initialize(ADMIN).unwrap();
    let result = vault.initialize(ADMIN);
    assert_eq!(result, Err(CrowdfundError::AlreadyInitialized));
}

#[test]
fn test_create_project() {
    let mut vault = setup();
    vault.initialize(ADMIN).unwrap();
    let project_id = vault
        .create_project(OWNER, "TestProj".to_string(), 1_000_000, TOKEN)
        .unwrap();
    assert_eq!(project_id, 0);

    let project = vault.get_project(project_id).unwrap();
    assert_eq!(project.id, 0);
    assert_eq!(project.owner, OWNER);
    assert_eq!(project.target_amount, 1_000_000);
    assert_eq!(project.total_deposited, 0);
    assert_eq!(project.total_withdrawn, 0);
    assert!(project.is_active);
}

#[test]
fn test_create_project_not_initialized() {
    let mut vault = setup();
    let result = vault.create_project(OWNER, "TestProj".to_string(), 1_000_000, TOKEN);
    assert_eq!(result, Err(CrowdfundError::NotInitialized));
}

#[test]
fn test_deposit() {
    let (mut vault, project_id) = setup_with_project();
    let deposit_amount: i128 = 500_000;
    vault
        .deposit(USER, project_id, deposit_amount, USER_FUNDS)
        .unwrap();
    assert_eq!(vault.get_balance(project_id), Ok(deposit_amount));
    let project = vault.get_project(project_id).unwrap();
    assert_eq!(project.total_deposited, deposit_amount);
}

#[test]
fn test_deposit_invalid_amount() {
    let (mut vault, project_id) = setup_with_project();
    let result = vault.deposit(USER, project_id, 0, USER_FUNDS);
    assert_eq!(result, Err(CrowdfundError::InvalidAmount));
}

#[test]
fn test_withdraw_without_approval_fails() {
    let (mut vault, project_id) = setup_with_project();
    vault.deposit(USER, project_id, 500_000, USER_FUNDS).unwrap();
    let result = vault.withdraw(project_id, 100_000);
    assert_eq!(result, Err(CrowdfundError::MilestoneNotApproved));
}

#[test]
fn test_withdraw_after_approval() {
    let (mut vault, project_id) = setup_with_project();
    let deposit_amount: i128 = 500_000;
    vault
        .deposit(USER, project_id, deposit_amount, USER_FUNDS)
        .unwrap();
    vault.approve_milestone(ADMIN, project_id).unwrap();
    assert_eq!(vault.is_milestone_approved(project_id), Ok(true));

    let withdraw_amount: i128 = 200_000;
    vault.withdraw(project_id, withdraw_amount).unwrap();
    assert_eq!(
        vault.get_balance(project_id),
        Ok(deposit_amount - withdraw_amount)
    );
    let project = vault.get_project(project_id).unwrap();
    assert_eq!(project.total_withdrawn, withdraw_amount);

    // the payout to the owner is announced for the host to carry out
    assert_eq!(
        vault.events().last(),
        Some(&VaultEvent::Withdraw {
            owner: OWNER,
            project_id,
            amount: withdraw_amount
        })
    );
}

#[test]
fn test_non_admin_cannot_approve() {
    let (mut vault, project_id) = setup_with_project();
    let non_admin: Address = 77;
    let result = vault.approve_milestone(non_admin, project_id);
    assert_eq!(result, Err(CrowdfundError::Unauthorized));
}

#[test]
fn test_insufficient_balance_withdrawal() {
    let (mut vault, project_id) = setup_with_project();
    vault.deposit(USER, project_id, 100_000, USER_FUNDS).unwrap();
    vault.approve_milestone(ADMIN, project_id).unwrap();
    let result = vault.withdraw(project_id, 500_000);
    assert_eq!(result, Err(CrowdfundError::InsufficientBalance));
}

#[test]
fn test_project_not_found() {
    let mut vault = setup();
    vault.initialize(ADMIN).unwrap();
    let result = vault.get_project(999);
    assert_eq!(result, Err(CrowdfundError::ProjectNotFound));
}

#[test]
fn test_multiple_projects() {
    let mut vault = setup();
    vault.initialize(ADMIN).unwrap();
    let project_id_1 = vault
        .create_project(OWNER, "Project1".to_string(), 1_000_000, TOKEN)
        .unwrap();
    let project_id_2 = vault
        .create_project(OWNER, "Project2".to_string(), 2_000_000, TOKEN)
        .unwrap();
    assert_eq!(project_id_1, 0);
    assert_eq!(project_id_2, 1);

    let project_1 = vault.get_project(project_id_1).unwrap();
    let project_2 = vault.get_project(project_id_2).unwrap();
    assert_eq!(project_1.target_amount, 1_000_000);
    assert_eq!(project_2.target_amount, 2_000_000);
}

#[test]
fn test_fund_matching_pool() {
    let mut vault = setup();
    vault.initialize(ADMIN).unwrap();
    let pool_amount: i128 = 10_000_000;
    vault.fund_matching_pool(ADMIN, TOKEN, pool_amount).unwrap();
    assert_eq!(vault.get_matching_pool_balance(TOKEN), Ok(pool_amount));
}

#[test]
fn test_fund_matching_pool_unauthorized() {
    let mut vault = setup();
    vault.initialize(ADMIN).unwrap();
    let result = vault.fund_matching_pool(OWNER, TOKEN, 10_000_000);
    assert_eq!(result, Err(CrowdfundError::Unauthorized));
}

#[test]
fn test_calculate_match_single_contributor() {
    let (mut vault, project_id) = setup_with_project();
    let contribution: i128 = 1_000_000;
    vault
        .deposit(USER, project_id, contribution, USER_FUNDS)
        .unwrap();
    let match_amount = vault.calculate_match(project_id).unwrap();
    assert!(match_amount > 0);
    assert_eq!(vault.get_contributor_count(project_id), Ok(1));
    assert_eq!(vault.get_contribution(project_id, USER), Ok(contribution));
}

#[test]
fn test_calculate_match_multiple_contributors() {
    let (mut vault, project_id) = setup_with_project();
    let (user1, user2, user3): (Address, Address, Address) = (11, 12, 13);
    // these users hold none of the project's asset: accounting-only deposits
    vault.deposit(user1, project_id, 100, 0).unwrap();
    vault.deposit(user2, project_id, 400, 0).unwrap();
    vault.deposit(user3, project_id, 900, 0).unwrap();

    let match_amount = vault.calculate_match(project_id).unwrap();
    assert!((3500..=3700).contains(&match_amount));
    assert_eq!(vault.get_contributor_count(project_id), Ok(3));
}

#[test]
fn test_calculate_match_no_contributors() {
    let (vault, project_id) = setup_with_project();
    assert_eq!(vault.calculate_match(project_id), Ok(0));
}

#[test]
fn test_distribute_match() {
    let (mut vault, project_id) = setup_with_project();
    let contribution: i128 = 1_000_000;
    vault
        .deposit(USER, project_id, contribution, USER_FUNDS)
        .unwrap();
    let pool_amount: i128 = 10_000_000;
    vault.fund_matching_pool(ADMIN, TOKEN, pool_amount).unwrap();

    let initial_balance = vault.get_balance(project_id).unwrap();
    let match_amount = vault.calculate_match(project_id).unwrap();
    let distributed = vault.distribute_match(project_id).unwrap();
    assert!(distributed > 0);
    assert_eq!(distributed, match_amount);

    assert_eq!(
        vault.get_balance(project_id),
        Ok(initial_balance + distributed)
    );
    assert_eq!(
        vault.get_matching_pool_balance(TOKEN),
        Ok(pool_amount - distributed)
    );
}

#[test]
fn test_contributor_registration() {
    let mut vault = setup();
    vault.initialize(ADMIN).unwrap();
    vault.register_contributor(USER).unwrap();
    assert_eq!(vault.get_reputation(USER), Ok(0));
    let result = vault.register_contributor(USER);
    assert_eq!(result, Err(CrowdfundError::AlreadyRegistered));
}

#[test]
fn test_reputation_management() {
    let mut vault = setup();
    vault.initialize(ADMIN).unwrap();
    vault.register_contributor(USER).unwrap();

    vault.update_reputation(ADMIN, USER, 100).unwrap();
    assert_eq!(vault.get_reputation(USER), Ok(100));

    vault.update_reputation(ADMIN, USER, -50).unwrap();
    assert_eq!(vault.get_reputation(USER), Ok(50));

    let non_admin: Address = 77;
    let result = vault.update_reputation(non_admin, USER, 100);
    assert_eq!(result, Err(CrowdfundError::Unauthorized));
}

#[test]
fn test_events_emission() {
    let (mut vault, project_id) = setup_with_project();
    let (user1, user2): (Address, Address) = (11, 12);
    vault.deposit(user1, project_id, 1_000_000, 0).unwrap();
    vault.deposit(user2, project_id, 1_000_000, 0).unwrap();

    let pool_amount: i128 = 100_000;
    vault.fund_matching_pool(ADMIN, TOKEN, pool_amount).unwrap();

    let match_amount = vault.calculate_match(project_id).unwrap();
    assert!(match_amount > pool_amount);

    let distributed = vault.distribute_match(project_id).unwrap();
    assert_eq!(distributed, pool_amount);
    assert_eq!(vault.get_matching_pool_balance(TOKEN), Ok(0));
}

#[test]
fn test_multiple_contributions_same_user() {
    let (mut vault, project_id) = setup_with_project();
    vault.deposit(USER, project_id, 100, USER_FUNDS).unwrap();
    vault.deposit(USER, project_id, 300, USER_FUNDS).unwrap();

    assert_eq!(vault.get_contributor_count(project_id), Ok(1));
    assert_eq!(vault.get_contribution(project_id, USER), Ok(400));

    let match_amount = vault.calculate_match(project_id).unwrap();
    assert!((390..=410).contains(&match_amount));

    vault.deposit(USER, project_id, 500_000, USER_FUNDS).unwrap();
    vault.register_contributor(USER).unwrap();
    vault.update_reputation(ADMIN, USER, 10).unwrap();

    assert!(
        !vault.events().is_empty(),
        "Expected at least one event to be emitted"
    );
}
