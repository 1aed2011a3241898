use d2d_program_sol::admin::initialize;
use d2d_program_sol::{ErrorCode, Pubkey, TreasuryPool};

fn key(n: u8) -> Pubkey {
    Pubkey::new_from_array([n; 32])
}

fn fresh() -> TreasuryPool {
    initialize(&key(1), key(2), 3, 4, 5)
}

#[test]
fn fresh_ledger_defaults() {
    let pool = fresh();
    assert_eq!(pool.timelock_duration, 86_400);
    assert_eq!(pool.reward_fee_bps, 100);
    assert_eq!(pool.platform_fee_bps, 10);
    assert_eq!(pool.base_apy_bps, 500);
    assert_eq!(pool.max_apy_multiplier_bps, 30_000);
    assert_eq!(pool.target_utilization_bps, 6_000);
    assert!(!pool.has_guardian());
    assert!(pool.is_admin(&key(1)));
    assert!(!pool.is_admin(&key(2)));
    assert_eq!(pool.reward_pool_bump, 3);
    assert_eq!(pool.platform_pool_bump, 4);
    assert_eq!(pool.bump, 5);
}

#[test]
fn fees_round_half_up() {
    assert_eq!(TreasuryPool::calculate_reward_fee(10_000), Ok(100));
    assert_eq!(TreasuryPool::calculate_reward_fee(50), Ok(1));
    assert_eq!(TreasuryPool::calculate_reward_fee(49), Ok(0));
    assert_eq!(TreasuryPool::calculate_platform_fee(10_000), Ok(10));
    assert_eq!(TreasuryPool::calculate_platform_fee(500), Ok(1));
    assert_eq!(TreasuryPool::calculate_platform_fee(499), Ok(0));
    assert_eq!(TreasuryPool::calculate_reward_fee(u64::MAX), Ok(184_467_440_737_095_516));
}

#[test]
fn credit_fee_without_deposits_keeps_accumulator() {
    let mut pool = fresh();
    assert_eq!(pool.credit_fee_to_pool(1_000, 10), Ok(()));
    assert_eq!(pool.reward_per_share, 0);
    assert_eq!(pool.reward_pool_balance, 1_000);
    assert_eq!(pool.platform_pool_balance, 10);
    assert_eq!(pool.total_credited_rewards, 1_000);
}

#[test]
fn credit_fee_spreads_over_deposits() {
    let mut pool = fresh();
    pool.total_deposited = 3;
    assert_eq!(pool.credit_fee_to_pool(1, 0), Ok(()));
    assert_eq!(pool.reward_per_share, 333_333_333_333);
}

#[test]
fn credit_fee_errors() {
    let mut pool = fresh();
    assert_eq!(pool.credit_fee_to_pool(TreasuryPool::MAX_AMOUNT + 1, 0), Err(ErrorCode::FeeAmountTooLarge));
    assert_eq!(pool.credit_fee_to_pool(0, TreasuryPool::MAX_AMOUNT + 1), Err(ErrorCode::FeeAmountTooLarge));
    pool.platform_pool_balance = u64::MAX;
    let before = pool;
    assert_eq!(pool.credit_fee_to_pool(5, 1), Err(ErrorCode::CalculationOverflow));
    assert_eq!(pool.reward_pool_balance, before.reward_pool_balance);
    assert_eq!(pool.total_credited_rewards, before.total_credited_rewards);
}

#[test]
fn claimable_clamps_and_safe_variant_reports() {
    let mut pool = fresh();
    pool.reward_per_share = 2_000_000_000_000;
    assert_eq!(pool.calculate_claimable_rewards(10, 0), Ok(20));
    assert_eq!(pool.calculate_claimable_rewards(10, 5_000_000_000_000), Ok(15));
    assert_eq!(pool.calculate_claimable_rewards(1, 3_000_000_000_000), Ok(0));
    assert_eq!(pool.calculate_claimable_rewards_safe(1, 3_000_000_000_000), Err(ErrorCode::RewardDebtExceedsAccumulated));
    assert_eq!(pool.calculate_claimable_rewards_safe(10, 5_000_000_000_000), Ok(15));
    pool.reward_per_share = u128::MAX;
    assert_eq!(pool.calculate_claimable_rewards(2, 0), Err(ErrorCode::CalculationOverflow));
}

#[test]
fn pool_credits_and_debits() {
    let mut pool = fresh();
    assert_eq!(pool.credit_reward_pool(500), Ok(()));
    assert_eq!(pool.reward_pool_balance, 500);
    assert_eq!(pool.total_credited_rewards, 0);
    assert_eq!(pool.debit_reward_pool(600), Err(ErrorCode::CalculationOverflow));
    assert_eq!(pool.debit_reward_pool(200), Ok(()));
    assert_eq!(pool.reward_pool_balance, 300);
    assert_eq!(pool.credit_platform_pool(7), Ok(()));
    assert_eq!(pool.platform_pool_balance, 7);
    assert_eq!(pool.credit_reward_pool(TreasuryPool::MAX_AMOUNT as u128 + 1), Err(ErrorCode::FeeAmountTooLarge));
    assert_eq!(pool.credit_rewards_with_tracking(100), Ok(()));
    assert_eq!(pool.reward_pool_balance, 400);
    assert_eq!(pool.total_credited_rewards, 100);
    assert_eq!(pool.record_claimed_rewards(40), Ok(()));
    assert_eq!(pool.total_claimed_rewards, 40);
}

#[test]
fn protected_and_excess_rewards() {
    let mut pool = fresh();
    pool.reward_pool_balance = 1_000;
    pool.total_credited_rewards = 700;
    pool.total_claimed_rewards = 200;
    assert_eq!(pool.get_protected_rewards(), 500);
    assert_eq!(pool.get_excess_rewards(), 500);
    assert!(pool.can_withdraw_from_reward_pool(500));
    assert!(!pool.can_withdraw_from_reward_pool(501));
    pool.reward_pool_balance = 100;
    assert_eq!(pool.get_excess_rewards(), 0);
}

#[test]
fn roles() {
    let mut pool = fresh();
    let g = key(9);
    assert!(!pool.is_guardian(&g));
    pool.guardian = g;
    assert!(pool.has_guardian());
    assert!(pool.is_guardian(&g));
    assert!(pool.is_admin_or_guardian(&g));
    assert!(pool.is_admin_or_guardian(&key(1)));
    assert!(!pool.is_admin_or_guardian(&key(8)));
}

#[test]
fn day_buckets() {
    assert_eq!(TreasuryPool::get_day_timestamp(0), 0);
    assert_eq!(TreasuryPool::get_day_timestamp(86_399), 0);
    assert_eq!(TreasuryPool::get_day_timestamp(86_400), 86_400);
    assert_eq!(TreasuryPool::get_day_timestamp(200_000), 172_800);
    assert_eq!(TreasuryPool::get_day_timestamp(-1), 0);
    assert_eq!(TreasuryPool::get_day_timestamp(-86_401), -86_400);
}

#[test]
fn daily_limit_rolls_over() {
    let mut pool = fresh();
    assert_eq!(pool.check_and_update_daily_limit(u64::MAX, 10), Ok(()));
    assert_eq!(pool.get_remaining_daily_allowance(10), u64::MAX);
    pool.daily_withdrawal_limit = 1_000;
    assert_eq!(pool.check_and_update_daily_limit(600, 86_400 + 5), Ok(()));
    assert_eq!(pool.last_withdrawal_day, 86_400);
    assert_eq!(pool.withdrawn_today, 600);
    assert_eq!(pool.get_remaining_daily_allowance(86_400 + 6), 400);
    assert_eq!(pool.check_and_update_daily_limit(401, 86_400 + 7), Err(ErrorCode::DailyWithdrawalLimitExceeded));
    assert_eq!(pool.withdrawn_today, 600);
    assert_eq!(pool.get_remaining_daily_allowance(2 * 86_400), 1_000);
    assert_eq!(pool.check_and_update_daily_limit(1_000, 2 * 86_400 + 1), Ok(()));
    assert_eq!(pool.withdrawn_today, 1_000);
    assert_eq!(pool.last_withdrawal_day, 2 * 86_400);
}

#[test]
fn utilization_and_recovery_ratios() {
    let mut pool = fresh();
    assert_eq!(pool.get_utilization_bps(), 0);
    assert_eq!(pool.get_recovery_ratio_bps(), 10_000);
    assert_eq!(pool.check_utilization_limit(u64::MAX), Ok(true));
    pool.total_deposited = 10_000;
    pool.total_borrowed = 2_500;
    assert_eq!(pool.get_utilization_bps(), 2_500);
    assert_eq!(pool.check_utilization_limit(5_500), Ok(true));
    assert_eq!(pool.check_utilization_limit(5_501), Ok(false));
    pool.total_debt_repaid = 2_500;
    pool.total_recovered = 4_000;
    assert_eq!(pool.get_recovery_ratio_bps(), 8_000);
    pool.total_deposited = 1;
    pool.total_borrowed = u64::MAX;
    assert_eq!(pool.get_utilization_bps(), u64::MAX);
}

#[test]
fn apy_follows_utilization() {
    let mut pool = fresh();
    pool.total_deposited = 10_000;
    assert_eq!(pool.calculate_current_apy(), Ok(500));
    pool.total_borrowed = 3_000;
    assert_eq!(pool.calculate_current_apy(), Ok(625));
    pool.total_borrowed = 6_000;
    assert_eq!(pool.calculate_current_apy(), Ok(750));
    pool.total_borrowed = 7_000;
    assert_eq!(pool.calculate_current_apy(), Ok(1_125));
    pool.total_borrowed = 8_000;
    assert_eq!(pool.calculate_current_apy(), Ok(1_500));
    pool.total_borrowed = 9_500;
    assert_eq!(pool.calculate_current_apy(), Ok(1_500));
    pool.base_apy_bps = 0;
    assert_eq!(pool.calculate_current_apy(), Ok(0));
    pool.base_apy_bps = u64::MAX;
    assert_eq!(pool.calculate_current_apy(), Err(ErrorCode::CalculationOverflow));
}

#[test]
fn debt_bookkeeping() {
    let mut pool = fresh();
    assert_eq!(pool.record_deployment_borrow(1_000), Ok(()));
    assert_eq!(pool.total_borrowed, 1_000);
    assert_eq!(pool.active_deployment_count, 1);
    assert_eq!(pool.record_debt_repayment(400, 1_000), Ok((400, 0)));
    assert_eq!(pool.total_borrowed, 600);
    assert_eq!(pool.liquid_balance, 400);
    assert_eq!(pool.active_deployment_count, 0);
    assert_eq!(pool.record_debt_repayment(900, 600), Ok((600, 300)));
    assert_eq!(pool.total_borrowed, 0);
    assert_eq!(pool.total_recovered, 1_300);
    assert_eq!(pool.total_debt_repaid, 1_000);
    assert_eq!(pool.active_deployment_count, 0);
}

#[test]
fn queue_counters() {
    let mut pool = fresh();
    assert!(!pool.has_pending_withdrawals());
    assert_eq!(pool.add_to_withdrawal_queue(50), Ok(0));
    assert_eq!(pool.add_to_withdrawal_queue(70), Ok(1));
    assert_eq!(pool.get_pending_withdrawal_count(), 2);
    assert!(pool.has_pending_withdrawals());
    assert_eq!(pool.queued_withdrawal_amount, 120);
    assert_eq!(pool.process_queued_withdrawal(200), Ok(()));
    assert_eq!(pool.queued_withdrawal_amount, 0);
    pool.withdrawal_queue_tail = u32::MAX;
    assert_eq!(pool.add_to_withdrawal_queue(1), Err(ErrorCode::CalculationOverflow));
}

#[test]
fn held_back_rewards_and_duration_bonus() {
    let mut pool = fresh();
    assert_eq!(pool.move_to_pending_rewards(10_000), Ok(()));
    assert_eq!(pool.distribute_pending_rewards(5_000), Ok(0));
    pool.total_deposited = 1_000_000;
    assert_eq!(pool.distribute_pending_rewards(10_001), Err(ErrorCode::InvalidDistributionPercentage));
    assert_eq!(pool.distribute_pending_rewards(2_500), Ok(2_500));
    assert_eq!(pool.pending_undistributed_rewards, 7_500);
    assert_eq!(pool.reward_per_share, 2_500_000_000);
    assert_eq!(pool.calculate_duration_bonus(10), Ok(0));
    assert_eq!(pool.update_stake_duration_weight(400), Ok(()));
    assert_eq!(pool.calculate_duration_bonus(100), Ok(1_875));
    assert_eq!(pool.calculate_duration_bonus(800), Ok(15_000));
    assert_eq!(pool.calculate_duration_bonus(u128::MAX), Err(ErrorCode::CalculationOverflow));
}
