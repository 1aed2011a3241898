use d2d_program_sol::admin::{
    admin_withdraw_reward_pool, cancel_withdrawal, close_treasury_pool, credit_fee_to_pool, distribute_pending_rewards,
    emergency_pause, execute_withdrawal, force_rebalance, guardian_pause, guardian_veto, initialize, initiate_withdrawal,
    reinitialize_treasury_pool, set_daily_limit, set_guardian, set_timelock_duration, sync_liquid_balance,
};
use d2d_program_sol::deploy_request::{DeployRequest, DeployRequestStatus};
use d2d_program_sol::deployment::{
    auto_renew_subscription, close_expired_program, confirm_deployment_failure, force_reset_deployment,
    fund_temporary_wallet, mark_subscription_expired, pay_subscription, request_deployment_funds, start_grace_period,
};
use d2d_program_sol::developer::{
    deposit_escrow_sol, initialize_escrow, proxy_upgrade_program, set_preferred_token, toggle_auto_renew,
    transfer_authority_to_pda, withdraw_escrow_sol,
};
use d2d_program_sol::developer_escrow::TokenType;
use d2d_program_sol::lender::{
    available_liquidity, cancel_queued_withdrawal, emergency_unstake_sol, process_withdrawal_queue, queue_withdrawal,
    stake_sol, unstake_sol,
};
use d2d_program_sol::{BackerDeposit, ErrorCode, Pubkey, TreasuryPool, WithdrawalType};

fn key(n: u8) -> Pubkey {
    Pubkey::new_from_array([n; 32])
}

fn admin() -> Pubkey {
    key(1)
}

fn fresh() -> TreasuryPool {
    initialize(&admin(), key(2), 0, 0, 0)
}

const PLENTY: u64 = 1_000_000_000_000;

fn staked(pool: &mut TreasuryPool, who: Pubkey, amount: u64) -> BackerDeposit {
    let mut pos = BackerDeposit::new(Pubkey::zero(), 0, 0);
    assert_eq!(stake_sol(pool, &mut pos, &who, amount, PLENTY, 0, 0), Ok(()));
    pos
}

#[test]
fn stake_errors() {
    let mut pool = fresh();
    let mut pos = BackerDeposit::new(Pubkey::zero(), 0, 0);
    assert_eq!(stake_sol(&mut pool, &mut pos, &key(9), 0, PLENTY, 0, 0), Err(ErrorCode::InvalidAmount));
    assert_eq!(stake_sol(&mut pool, &mut pos, &key(9), 100, 100 + 9_999, 0, 0), Err(ErrorCode::InsufficientDeposit));
    assert_eq!(stake_sol(&mut pool, &mut pos, &key(9), 100, 10_100, 1, 0), Err(ErrorCode::InsufficientDeposit));
    assert_eq!(stake_sol(&mut pool, &mut pos, &key(9), 100, 10_101, 1, 0), Ok(()));
    assert_eq!(pos.backer, key(9));
    assert_eq!(stake_sol(&mut pool, &mut pos, &key(8), 100, PLENTY, 0, 0), Err(ErrorCode::Unauthorized));
    pool.emergency_pause = true;
    assert_eq!(stake_sol(&mut pool, &mut pos, &key(9), 100, PLENTY, 0, 0), Err(ErrorCode::ProgramPaused));
    assert_eq!(pool.total_deposited, 100);
}

#[test]
fn unstake_errors_and_resync() {
    let mut pool = fresh();
    let s = key(9);
    let mut pos = staked(&mut pool, s, 5_000_000);
    assert_eq!(unstake_sol(&mut pool, &mut pos, &s, 0, PLENTY, 0, 1), Err(ErrorCode::InvalidAmount));
    assert_eq!(unstake_sol(&mut pool, &mut pos, &s, 5_000_001, PLENTY, 0, 1), Err(ErrorCode::InsufficientStake));
    assert_eq!(unstake_sol(&mut pool, &mut pos, &s, 10, 5, 6, 1), Err(ErrorCode::CalculationOverflow));
    assert_eq!(unstake_sol(&mut pool, &mut pos, &s, 1_000, 999 + 50, 50, 1), Err(ErrorCode::InsufficientLiquidBalance));
    assert_eq!(unstake_sol(&mut pool, &mut pos, &key(8), 1_000, PLENTY, 0, 1), Err(ErrorCode::Unauthorized));
    assert_eq!(unstake_sol(&mut pool, &mut pos, &s, 1_000_000, 7_000_000, 0, 10), Ok(()));
    assert_eq!(pool.liquid_balance, 6_000_000);
    assert_eq!(pool.total_deposited, 4_000_000);
    assert_eq!(pos.stake_duration_weight, 50_000_000);
    assert_eq!(pool.total_stake_duration_weight, 50_000_000);
    let _entry = queue_withdrawal(&mut pool, &mut pos, &s, 10, 0, 11).unwrap();
    assert_eq!(unstake_sol(&mut pool, &mut pos, &s, 10, PLENTY, 0, 12), Err(ErrorCode::WithdrawalAlreadyQueued));
}

#[test]
fn emergency_unstake_works_while_paused() {
    let mut pool = fresh();
    let s = key(9);
    let mut pos = staked(&mut pool, s, 1_000);
    assert_eq!(emergency_pause(&mut pool, &admin(), true), Ok(()));
    assert_eq!(unstake_sol(&mut pool, &mut pos, &s, 1_000, PLENTY, 0, 1), Err(ErrorCode::ProgramPaused));
    assert_eq!(emergency_unstake_sol(&mut pool, &mut pos, &s, 1_000, 900, 0), Err(ErrorCode::InsufficientLiquidBalance));
    assert_eq!(emergency_unstake_sol(&mut pool, &mut pos, &s, 1_000, 1_000, 0), Ok(()));
    assert_eq!(pos.deposited_amount, 0);
    assert!(!pos.is_active);
    assert_eq!(pool.total_deposited, 0);
    assert_eq!(emergency_pause(&mut pool, &key(3), false), Err(ErrorCode::Unauthorized));
}

#[test]
fn queue_errors_and_cancel() {
    let mut pool = fresh();
    let s = key(9);
    let mut pos = staked(&mut pool, s, 1_000);
    assert_eq!(queue_withdrawal(&mut pool, &mut pos, &s, 0, 0, 1).unwrap_err(), ErrorCode::InvalidAmount);
    assert_eq!(queue_withdrawal(&mut pool, &mut pos, &s, 1_001, 0, 1).unwrap_err(), ErrorCode::InsufficientStake);
    assert_eq!(queue_withdrawal(&mut pool, &mut pos, &key(8), 10, 0, 1).unwrap_err(), ErrorCode::Unauthorized);
    let mut entry = queue_withdrawal(&mut pool, &mut pos, &s, 400, 0, 1).unwrap();
    assert_eq!(queue_withdrawal(&mut pool, &mut pos, &s, 10, 0, 1).unwrap_err(), ErrorCode::WithdrawalAlreadyQueued);
    assert_eq!(cancel_queued_withdrawal(&mut pool, &mut entry, &mut pos, &key(8), 2), Err(ErrorCode::Unauthorized));
    assert_eq!(cancel_queued_withdrawal(&mut pool, &mut entry, &mut pos, &s, 2), Ok(400));
    assert!(entry.processed);
    assert_eq!(pool.queued_withdrawal_amount, 0);
    assert_eq!(pos.deposited_amount, 1_000);
    assert!(!pos.has_queued_withdrawal());
    assert_eq!(cancel_queued_withdrawal(&mut pool, &mut entry, &mut pos, &s, 3), Err(ErrorCode::WithdrawalAlreadyProcessed));
}

#[test]
fn timelocked_withdrawal_lifecycle() {
    let mut pool = fresh();
    pool.platform_pool_balance = 10_000;
    let dest = key(4);
    let reason = String::from("ops budget");
    assert_eq!(
        initiate_withdrawal(&mut pool, &key(3), WithdrawalType::PlatformPool, 1, dest, reason.clone(), 0, 0).unwrap_err(),
        ErrorCode::Unauthorized
    );
    assert_eq!(
        initiate_withdrawal(&mut pool, &admin(), WithdrawalType::PlatformPool, 0, dest, reason.clone(), 0, 0).unwrap_err(),
        ErrorCode::InvalidAmount
    );
    assert_eq!(
        initiate_withdrawal(&mut pool, &admin(), WithdrawalType::PlatformPool, 10_001, dest, reason.clone(), 0, 0)
            .unwrap_err(),
        ErrorCode::InsufficientTreasuryFunds
    );
    let mut pw =
        initiate_withdrawal(&mut pool, &admin(), WithdrawalType::PlatformPool, 4_000, dest, reason.clone(), 7, 1_000)
            .unwrap();
    assert_eq!(pw.execute_after, 1_000 + 86_400);
    assert_eq!(pw.expires_at, 1_000 + 86_400 + 604_800);
    assert_eq!(pw.reason, reason);
    assert_eq!(execute_withdrawal(&mut pool, &mut pw, &admin(), &key(5), PLENTY, 90_000), Err(ErrorCode::InvalidTreasuryWallet));
    assert_eq!(execute_withdrawal(&mut pool, &mut pw, &admin(), &dest, PLENTY, 1_000), Err(ErrorCode::TimelockNotExpired));
    assert_eq!(
        execute_withdrawal(&mut pool, &mut pw, &admin(), &dest, PLENTY, 1_000 + 86_400 + 604_801),
        Err(ErrorCode::PendingWithdrawalExpired)
    );
    assert_eq!(execute_withdrawal(&mut pool, &mut pw, &admin(), &dest, 3_999, 90_000), Err(ErrorCode::InsufficientTreasuryFunds));
    assert_eq!(execute_withdrawal(&mut pool, &mut pw, &admin(), &dest, PLENTY, 90_000), Ok(()));
    assert!(pw.executed);
    assert_eq!(pool.platform_pool_balance, 6_000);
    assert_eq!(pool.pending_withdrawal_count, 0);
    assert_eq!(execute_withdrawal(&mut pool, &mut pw, &admin(), &dest, PLENTY, 90_000), Err(ErrorCode::NoPendingWithdrawal));
}

#[test]
fn reward_pool_withdrawals_spare_protected_rewards() {
    let mut pool = fresh();
    pool.reward_pool_balance = 1_000;
    pool.total_credited_rewards = 800;
    assert_eq!(admin_withdraw_reward_pool(&mut pool, &admin(), 201, PLENTY), Err(ErrorCode::CannotWithdrawProtectedRewards));
    assert_eq!(admin_withdraw_reward_pool(&mut pool, &admin(), 200, 199), Err(ErrorCode::InsufficientTreasuryFunds));
    assert_eq!(admin_withdraw_reward_pool(&mut pool, &admin(), 200, PLENTY), Ok(()));
    assert_eq!(pool.reward_pool_balance, 800);
    pool.reward_pool_balance = 1_000;
    let mut pw =
        initiate_withdrawal(&mut pool, &admin(), WithdrawalType::RewardPool, 300, key(4), String::new(), 0, 0).unwrap();
    assert_eq!(execute_withdrawal(&mut pool, &mut pw, &admin(), &key(4), PLENTY, 86_400), Err(ErrorCode::CannotWithdrawProtectedRewards));
    assert_eq!(cancel_withdrawal(&mut pool, &pw, &admin()), Ok(()));
    assert_eq!(pool.pending_withdrawal_count, 0);
}

#[test]
fn guardian_controls() {
    let mut pool = fresh();
    let g = key(6);
    pool.platform_pool_balance = 100;
    let mut pw = initiate_withdrawal(&mut pool, &admin(), WithdrawalType::PlatformPool, 50, key(4), String::new(), 0, 0).unwrap();
    assert_eq!(guardian_veto(&mut pool, &mut pw, &g, 10), Err(ErrorCode::GuardianNotSet));
    assert_eq!(guardian_pause(&mut pool, &g), Err(ErrorCode::GuardianNotSet));
    assert_eq!(set_guardian(&mut pool, &admin(), admin()), Err(ErrorCode::InvalidGuardianAddress));
    assert_eq!(set_guardian(&mut pool, &g, g), Err(ErrorCode::Unauthorized));
    assert_eq!(set_guardian(&mut pool, &admin(), g), Ok(()));
    assert_eq!(guardian_veto(&mut pool, &mut pw, &key(7), 10), Err(ErrorCode::OnlyGuardian));
    assert_eq!(guardian_veto(&mut pool, &mut pw, &g, 86_400), Err(ErrorCode::TimelockNotExpired));
    assert_eq!(guardian_veto(&mut pool, &mut pw, &g, 10), Ok(()));
    assert!(pw.vetoed);
    assert_eq!(pool.pending_withdrawal_count, 0);
    assert_eq!(cancel_withdrawal(&mut pool, &pw, &admin()), Err(ErrorCode::NoPendingWithdrawal));
    assert_eq!(guardian_pause(&mut pool, &g), Ok(()));
    assert!(pool.emergency_pause);
    assert_eq!(guardian_pause(&mut pool, &g), Ok(()));
    assert_eq!(set_guardian(&mut pool, &admin(), Pubkey::zero()), Ok(()));
    assert!(!pool.has_guardian());
}

#[test]
fn admin_settings() {
    let mut pool = fresh();
    assert_eq!(set_timelock_duration(&mut pool, &admin(), 3_599), Err(ErrorCode::InvalidTimelockDuration));
    assert_eq!(set_timelock_duration(&mut pool, &admin(), 604_801), Err(ErrorCode::InvalidTimelockDuration));
    assert_eq!(set_timelock_duration(&mut pool, &admin(), 3_600), Ok(()));
    assert_eq!(pool.timelock_duration, 3_600);
    assert_eq!(set_daily_limit(&mut pool, &key(3), 5), Err(ErrorCode::Unauthorized));
    assert_eq!(set_daily_limit(&mut pool, &admin(), 5), Ok(()));
    pool.platform_pool_balance = 100;
    assert_eq!(
        initiate_withdrawal(&mut pool, &admin(), WithdrawalType::PlatformPool, 6, key(4), String::new(), 0, 0).unwrap_err(),
        ErrorCode::DailyWithdrawalLimitExceeded
    );
    assert_eq!(sync_liquid_balance(&mut pool, &admin(), 1_000, 100), Ok(()));
    assert_eq!(pool.liquid_balance, 900);
    pool.reward_pool_balance = 200;
    assert_eq!(force_rebalance(&mut pool, &admin(), 1_000, 100), Ok(()));
    assert_eq!(pool.liquid_balance, 600);
    assert_eq!(force_rebalance(&mut pool, &admin(), 300, 100), Err(ErrorCode::CalculationOverflow));
    assert_eq!(close_treasury_pool(&pool, &admin(), 1_000, 100), Ok(900));
    assert_eq!(close_treasury_pool(&pool, &admin(), 50, 100), Ok(0));
    reinitialize_treasury_pool(&mut pool, &key(3), key(2), 0, 0, 0);
    assert!(pool.is_admin(&key(3)));
    assert_eq!(pool.liquid_balance, 0);
}

#[test]
fn fee_credit_and_distribution_instructions() {
    let mut pool = fresh();
    assert_eq!(credit_fee_to_pool(&mut pool, &admin(), 0, 0, PLENTY), Err(ErrorCode::InvalidAmount));
    assert_eq!(credit_fee_to_pool(&mut pool, &admin(), 10, 5, 14), Err(ErrorCode::InsufficientDeposit));
    assert_eq!(credit_fee_to_pool(&mut pool, &admin(), 10, 5, 15), Ok(()));
    assert_eq!(distribute_pending_rewards(&mut pool, &admin(), 0, 1), Err(ErrorCode::InvalidDistributionPercentage));
    assert_eq!(distribute_pending_rewards(&mut pool, &admin(), 100, 1), Err(ErrorCode::NoPendingRewards));
    pool.pending_undistributed_rewards = 1_000;
    assert_eq!(distribute_pending_rewards(&mut pool, &admin(), 100, 1), Err(ErrorCode::NoStakersForDistribution));
    let _pos = staked(&mut pool, key(9), 1_000_000);
    assert_eq!(distribute_pending_rewards(&mut pool, &key(3), 100, 1), Err(ErrorCode::Unauthorized));
    assert_eq!(distribute_pending_rewards(&mut pool, &admin(), 5_000, 77), Ok(500));
    assert_eq!(pool.pending_undistributed_rewards, 500);
    assert_eq!(pool.reward_per_share, 500_000_000);
    assert_eq!(pool.last_weight_update, 77);
}

fn pending_request(pool: &mut TreasuryPool) -> DeployRequest {
    request_deployment_funds(pool, &key(20), [7; 32], [8; 32], 1_000, 200, 3, 50_000, 0, 0).unwrap()
}

#[test]
fn funding_request_records_payment_and_loan() {
    let mut pool = fresh();
    assert_eq!(
        request_deployment_funds(&mut pool, &key(20), [7; 32], [8; 32], 1, 1, 0, 5, 0, 0).unwrap_err(),
        ErrorCode::InvalidAmount
    );
    assert_eq!(
        request_deployment_funds(&mut pool, &key(20), [7; 32], [8; 32], 1, 1, 121, 5, 0, 0).unwrap_err(),
        ErrorCode::SubscriptionExtensionTooLarge
    );
    let r = pending_request(&mut pool);
    assert_eq!(r.status, DeployRequestStatus::PendingDeployment);
    assert_eq!(r.subscription_paid_until, 3 * 2_592_000);
    assert_eq!(r.total_subscribed_months, 3);
    assert_eq!(pool.reward_pool_balance, 1_600);
    assert_eq!(pool.total_credited_rewards, 1_600);
    assert_eq!(pool.total_borrowed, 50_000);
}

#[test]
fn failed_deployment_refunds_developer() {
    let mut pool = fresh();
    let mut r = pending_request(&mut pool);
    let wallet = key(30);
    assert_eq!(confirm_deployment_failure(&mut pool, &mut r, &admin(), [7; 32], &wallet, PLENTY, 0), Err(ErrorCode::EphemeralKeyNotSet));
    pool.liquid_balance = 50_000;
    assert_eq!(fund_temporary_wallet(&mut pool, &mut r, &admin(), [9; 32], wallet, 50_000), Err(ErrorCode::InvalidRequestId));
    assert_eq!(fund_temporary_wallet(&mut pool, &mut r, &admin(), [7; 32], wallet, 50_001), Err(ErrorCode::InvalidAmount));
    assert_eq!(fund_temporary_wallet(&mut pool, &mut r, &admin(), [7; 32], wallet, 50_000), Ok(()));
    assert_eq!(fund_temporary_wallet(&mut pool, &mut r, &admin(), [7; 32], wallet, 1), Err(ErrorCode::InvalidEphemeralKey));
    assert_eq!(confirm_deployment_failure(&mut pool, &mut r, &admin(), [7; 32], &key(31), PLENTY, 0), Err(ErrorCode::InvalidEphemeralKey));
    assert_eq!(confirm_deployment_failure(&mut pool, &mut r, &admin(), [7; 32], &wallet, 1_599, 0), Err(ErrorCode::InsufficientTreasuryFunds));
    assert_eq!(confirm_deployment_failure(&mut pool, &mut r, &admin(), [7; 32], &wallet, PLENTY, 20_000), Ok(1_600));
    assert_eq!(r.status, DeployRequestStatus::Failed);
    assert_eq!(pool.reward_pool_balance, 0);
    assert_eq!(pool.liquid_balance, 20_000);
    assert_eq!(confirm_deployment_failure(&mut pool, &mut r, &admin(), [7; 32], &wallet, PLENTY, 0), Err(ErrorCode::InvalidRequestStatus));
    assert_eq!(force_reset_deployment(&pool, &mut r, &admin()), Ok(()));
    assert_eq!(r.ephemeral_key, None);
}

#[test]
fn subscription_payment_renewal_and_grace() {
    let mut pool = fresh();
    let mut r = pending_request(&mut pool);
    r.status = DeployRequestStatus::Active;
    let dev = key(20);
    assert_eq!(pay_subscription(&mut pool, &mut r, &key(21), [7; 32], 1, 0), Err(ErrorCode::Unauthorized));
    assert_eq!(pay_subscription(&mut pool, &mut r, &dev, [7; 32], 0, 0), Err(ErrorCode::InvalidAmount));
    assert_eq!(pay_subscription(&mut pool, &mut r, &dev, [7; 32], 2, 0), Ok(400));
    assert_eq!(r.subscription_paid_until, 5 * 2_592_000);
    assert_eq!(r.total_subscribed_months, 5);
    assert_eq!(pool.reward_pool_balance, 2_000);
    let late = 5 * 2_592_000 + 1;
    assert!(mark_subscription_expired(&mut r, late));
    assert_eq!(r.status, DeployRequestStatus::SubscriptionExpired);
    assert_eq!(start_grace_period(&pool, &mut r, &admin(), [7; 32], late), Ok(()));
    assert_eq!(r.grace_period_days, 5);
    assert_eq!(r.status, DeployRequestStatus::InGracePeriod);
    let mut escrow = initialize_escrow(&pool, &dev, 0, 0).unwrap();
    assert_eq!(auto_renew_subscription(&mut pool, &mut r, &mut escrow, &admin(), [7; 32], 1, late), Err(ErrorCode::AutoRenewalDisabled));
    r.auto_renewal_enabled = true;
    assert_eq!(auto_renew_subscription(&mut pool, &mut r, &mut escrow, &admin(), [7; 32], 1, late), Err(ErrorCode::InsufficientEscrowBalance));
    assert_eq!(r.auto_renewal_failed_count, 1);
    assert_eq!(r.status, DeployRequestStatus::InGracePeriod);
    assert_eq!(deposit_escrow_sol(&pool, &mut escrow, &dev, 1_000, 5), Ok(()));
    assert_eq!(auto_renew_subscription(&mut pool, &mut r, &mut escrow, &admin(), [7; 32], 1, late), Ok(200));
    assert_eq!(escrow.sol_balance, 800);
    assert_eq!(r.status, DeployRequestStatus::Active);
    assert_eq!(r.grace_period_end, 0);
    assert_eq!(r.auto_renewal_failed_count, 0);
    assert_eq!(pool.reward_pool_balance, 2_200);
    assert_eq!(pool.total_credited_rewards, 2_200);
}

#[test]
fn expired_program_closes_after_grace() {
    let mut pool = fresh();
    let mut r = pending_request(&mut pool);
    r.status = DeployRequestStatus::Active;
    let mut managed = transfer_authority_to_pda(&pool, &r, &admin(), key(40), key(41), key(42), 0, 0).unwrap();
    assert_eq!(proxy_upgrade_program(&pool, &r, &mut managed, &key(20), 10), Ok(()));
    assert_eq!(managed.upgrade_count, 1);
    assert_eq!(proxy_upgrade_program(&pool, &r, &mut managed, &key(21), 10), Err(ErrorCode::Unauthorized));
    let late = r.subscription_paid_until + 1;
    assert_eq!(proxy_upgrade_program(&pool, &r, &mut managed, &key(20), late), Err(ErrorCode::SubscriptionExpired));
    assert_eq!(close_expired_program(&pool, &mut r, &mut managed, &admin(), [7; 32], late), Err(ErrorCode::NotInGracePeriod));
    assert!(mark_subscription_expired(&mut r, late));
    assert_eq!(start_grace_period(&pool, &mut r, &admin(), [7; 32], late), Ok(()));
    assert_eq!(start_grace_period(&pool, &mut r, &admin(), [7; 32], late), Err(ErrorCode::InvalidRequestStatus));
    let end = r.grace_period_end;
    assert_eq!(close_expired_program(&pool, &mut r, &mut managed, &admin(), [7; 32], end), Err(ErrorCode::GracePeriodNotExpired));
    assert_eq!(close_expired_program(&pool, &mut r, &mut managed, &admin(), [7; 32], end + 1), Ok(()));
    assert_eq!(r.status, DeployRequestStatus::Closed);
    assert!(!managed.is_active);
}

#[test]
fn escrow_owner_operations() {
    let mut pool = fresh();
    let dev = key(20);
    let mut escrow = initialize_escrow(&pool, &dev, 0, 3).unwrap();
    assert!(escrow.auto_renew_enabled);
    assert_eq!(escrow.min_balance_alert, 100_000_000);
    assert_eq!(deposit_escrow_sol(&pool, &mut escrow, &key(21), 10, 5), Err(ErrorCode::Unauthorized));
    assert_eq!(deposit_escrow_sol(&pool, &mut escrow, &dev, 0, 5), Err(ErrorCode::InvalidAmount));
    assert_eq!(deposit_escrow_sol(&pool, &mut escrow, &dev, 10, 5), Ok(()));
    assert_eq!(withdraw_escrow_sol(&pool, &mut escrow, &dev, 11), Err(ErrorCode::InsufficientEscrowBalance));
    assert_eq!(withdraw_escrow_sol(&pool, &mut escrow, &dev, 4), Ok(()));
    assert_eq!(escrow.sol_balance, 6);
    assert_eq!(escrow.total_deposited_sol, 10);
    assert_eq!(toggle_auto_renew(&pool, &mut escrow, &dev, false), Ok(()));
    assert!(!escrow.auto_renew_enabled);
    assert_eq!(set_preferred_token(&pool, &mut escrow, &dev, 3), Err(ErrorCode::InvalidTokenType));
    assert_eq!(set_preferred_token(&pool, &mut escrow, &dev, 2), Ok(()));
    assert_eq!(escrow.preferred_token, TokenType::USDT);
    pool.emergency_pause = true;
    assert_eq!(toggle_auto_renew(&pool, &mut escrow, &dev, true), Err(ErrorCode::ProgramPaused));
    assert_eq!(initialize_escrow(&pool, &dev, 0, 3).unwrap_err(), ErrorCode::ProgramPaused);
}

#[test]
fn liquidity_is_balance_minus_rent() {
    assert_eq!(available_liquidity(1_000, 300), Ok(700));
    assert_eq!(available_liquidity(299, 300), Err(ErrorCode::CalculationOverflow));
}

#[test]
fn queue_position_past_tail_is_refused() {
    let mut pool = fresh();
    let s = key(9);
    let mut pos = staked(&mut pool, s, 1_000);
    let mut entry = queue_withdrawal(&mut pool, &mut pos, &s, 400, 0, 1).unwrap();
    let mut forged = entry;
    forged.position = pool.withdrawal_queue_tail;
    let tail = pool.withdrawal_queue_tail;
    assert_eq!(
        process_withdrawal_queue(&mut pool, &mut forged, &mut pos, &admin(), tail, PLENTY, 0, 2),
        Err(ErrorCode::InvalidQueuePosition)
    );
    assert_eq!(pool.withdrawal_queue_head, 0);
    assert_eq!(process_withdrawal_queue(&mut pool, &mut entry, &mut pos, &admin(), 0, PLENTY, 0, 2), Ok(400));
    assert_eq!(pool.withdrawal_queue_head, 1);
    assert!(pool.withdrawal_queue_head <= pool.withdrawal_queue_tail);
}

#[test]
fn emergency_unstake_cuts_queued_amount() {
    let mut pool = fresh();
    let s = key(9);
    let mut pos = staked(&mut pool, s, 1_000);
    let _entry = queue_withdrawal(&mut pool, &mut pos, &s, 800, 0, 1).unwrap();
    assert_eq!(emergency_unstake_sol(&mut pool, &mut pos, &s, 600, PLENTY, 0), Ok(()));
    assert_eq!(pos.deposited_amount, 400);
    assert_eq!(pos.queued_withdrawal, 400);
    assert_eq!(emergency_unstake_sol(&mut pool, &mut pos, &s, 100, PLENTY, 0), Ok(()));
    assert_eq!(pos.queued_withdrawal, 300);
}
