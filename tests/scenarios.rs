use d2d_program_sol::admin::{credit_fee_to_pool, initialize, initiate_withdrawal};
use d2d_program_sol::deploy_request::DeployRequestStatus;
use d2d_program_sol::deployment::{
    confirm_deployment_success, fund_temporary_wallet, reclaim_program_rent, request_deployment_funds,
};
use d2d_program_sol::developer::transfer_authority_to_pda;
use d2d_program_sol::lender::{claim_rewards, process_withdrawal_queue, queue_withdrawal, stake_sol, unstake_sol};
use d2d_program_sol::{BackerDeposit, ErrorCode, Pubkey, TreasuryPool, WithdrawalType};

fn key(n: u8) -> Pubkey {
    Pubkey::new_from_array([n; 32])
}

fn empty_position() -> BackerDeposit {
    BackerDeposit::new(Pubkey::zero(), 0, 0)
}

fn admin() -> Pubkey {
    key(1)
}

fn fresh() -> TreasuryPool {
    initialize(&admin(), key(2), 0, 0, 0)
}

const PLENTY: u64 = 1_000_000_000_000;

#[test]
fn end_to_end_stake_credit_claim() {
    let mut pool = fresh();
    let s1 = key(10);
    let mut pos = empty_position();
    assert_eq!(stake_sol(&mut pool, &mut pos, &s1, 10_000_000, PLENTY, 1_000_000, 100), Ok(()));
    assert_eq!(pool.total_deposited, 10_000_000);
    assert_eq!(pool.liquid_balance, 10_000_000);
    assert_eq!(pos.deposited_amount, 10_000_000);
    assert_eq!(pos.reward_debt, 0);
    assert_eq!(credit_fee_to_pool(&mut pool, &admin(), 100_000, 0, PLENTY), Ok(()));
    assert_eq!(pool.reward_per_share, 10_000_000_000);
    assert_eq!(pos.calculate_claimable_rewards(pool.reward_per_share), Ok(100_000));
    assert_eq!(claim_rewards(&mut pool, &mut pos, &s1, PLENTY, 100), Ok(100_000));
    assert_eq!(pos.claimed_total, 100_000);
    assert_eq!(pool.reward_pool_balance, 0);
    assert_eq!(pool.total_claimed_rewards, 100_000);
    assert_eq!(pos.pending_rewards, 0);
}

#[test]
fn reclaim_repays_debt_and_credits_excess() {
    let mut pool = fresh();
    let dev = key(20);
    let mut request =
        request_deployment_funds(&mut pool, &dev, [7; 32], [8; 32], 0, 0, 1, 5_000_000, 0, 1_000).unwrap();
    assert_eq!(request.borrowed_amount, 5_000_000);
    assert_eq!(request.expected_rent_recovery, 4_000_000);
    assert_eq!(pool.total_borrowed, 5_000_000);
    assert_eq!(pool.active_deployment_count, 1);
    let wallet = key(30);
    assert_eq!(fund_temporary_wallet(&mut pool, &mut request, &admin(), [7; 32], wallet, 0), Err(ErrorCode::InvalidAmount));
    pool.liquid_balance = 5_000_000;
    assert_eq!(fund_temporary_wallet(&mut pool, &mut request, &admin(), [7; 32], wallet, 5_000_000), Ok(()));
    assert_eq!(pool.liquid_balance, 0);
    assert_eq!(
        confirm_deployment_success(&mut pool, &mut request, &admin(), [7; 32], key(40), &wallet, 0, 0),
        Ok(0)
    );
    assert_eq!(request.status, DeployRequestStatus::Active);
    let mut managed = transfer_authority_to_pda(&pool, &request, &admin(), key(40), key(41), key(42), 0, 1_000).unwrap();
    let after_expiry = request.subscription_paid_until + 1;
    let r = reclaim_program_rent(&mut pool, &mut request, &mut managed, &admin(), 6_000_000, after_expiry);
    assert_eq!(r, Ok((5_000_000, 1_000_000)));
    assert_eq!(request.repaid_amount, 5_000_000);
    assert_eq!(request.actual_rent_recovered, 6_000_000);
    assert_eq!(request.recovery_ratio_bps, 12_000);
    assert_eq!(request.debt_repaid_at, after_expiry);
    assert_eq!(request.status, DeployRequestStatus::Closed);
    assert!(!managed.is_active);
    assert_eq!(pool.total_borrowed, 0);
    assert_eq!(pool.total_debt_repaid, 5_000_000);
    assert_eq!(pool.total_recovered, 6_000_000);
    assert_eq!(pool.active_deployment_count, 0);
    assert_eq!(pool.liquid_balance, 5_000_000);
    assert_eq!(pool.reward_pool_balance, 1_000_000);
    assert_eq!(pool.total_credited_rewards, 1_000_000);
}

#[test]
fn first_depositor_gets_nothing_immediately() {
    let mut pool = fresh();
    pool.reward_pool_balance = 500_000;
    pool.total_credited_rewards = 500_000;
    let a = key(11);
    let mut pos = empty_position();
    assert_eq!(stake_sol(&mut pool, &mut pos, &a, 2_000_000, PLENTY, 0, 50), Ok(()));
    assert_eq!(pool.pending_undistributed_rewards, 500_000);
    assert_eq!(pool.reward_per_share, 0);
    assert_eq!(pos.calculate_claimable_rewards(pool.reward_per_share), Ok(0));
    assert_eq!(claim_rewards(&mut pool, &mut pos, &a, PLENTY, 50), Err(ErrorCode::NoRewardsToClaim));
}

#[test]
fn utilization_above_cap_is_refused() {
    let mut pool = fresh();
    let mut pos = empty_position();
    assert_eq!(stake_sol(&mut pool, &mut pos, &key(12), 10_000_000, PLENTY, 0, 0), Ok(()));
    let dev = key(21);
    let refused = request_deployment_funds(&mut pool, &dev, [1; 32], [1; 32], 0, 0, 1, 8_000_001, 0, 0);
    assert_eq!(refused.unwrap_err(), ErrorCode::PoolUtilizationTooHigh);
    assert_eq!(pool.total_borrowed, 0);
    assert!(request_deployment_funds(&mut pool, &dev, [1; 32], [1; 32], 0, 0, 1, 8_000_000, 0, 0).is_ok());
    assert_eq!(pool.get_utilization_bps(), 8000);
}

#[test]
fn second_initiate_fails_while_one_pending() {
    let mut pool = fresh();
    pool.platform_pool_balance = 1_000;
    let first = initiate_withdrawal(&mut pool, &admin(), WithdrawalType::PlatformPool, 100, key(3), String::from("ops"), 0, 10);
    assert!(first.is_ok());
    assert_eq!(pool.pending_withdrawal_count, 1);
    let second = initiate_withdrawal(&mut pool, &admin(), WithdrawalType::PlatformPool, 50, key(3), String::from("ops"), 0, 20);
    assert_eq!(second.unwrap_err(), ErrorCode::PendingWithdrawalExists);
}

#[test]
fn queue_partial_then_complete() {
    let mut pool = fresh();
    let staker = key(13);
    let mut pos = empty_position();
    assert_eq!(stake_sol(&mut pool, &mut pos, &staker, 1_000_000, PLENTY, 0, 0), Ok(()));
    let mut entry = queue_withdrawal(&mut pool, &mut pos, &staker, 600_000, 0, 5).unwrap();
    assert_eq!(entry.position, 0);
    assert_eq!(pool.withdrawal_queue_tail, 1);
    assert_eq!(pool.queued_withdrawal_amount, 600_000);
    let rent = 1_000;
    let paid = process_withdrawal_queue(&mut pool, &mut entry, &mut pos, &admin(), 0, 250_000 + rent, rent, 6);
    assert_eq!(paid, Ok(250_000));
    assert_eq!(entry.amount_withdrawn, 250_000);
    assert!(!entry.processed);
    assert_eq!(pool.withdrawal_queue_head, 0);
    let paid = process_withdrawal_queue(&mut pool, &mut entry, &mut pos, &admin(), 0, 350_000 + rent, rent, 7);
    assert_eq!(paid, Ok(350_000));
    assert!(entry.processed);
    assert_eq!(entry.processed_at, 7);
    assert_eq!(pool.withdrawal_queue_head, 1);
    assert_eq!(pool.queued_withdrawal_amount, 0);
    assert_eq!(pos.deposited_amount, 400_000);
    assert_eq!(pos.queued_withdrawal, 0);
    assert_eq!(pool.total_deposited, 400_000);
}

#[test]
fn principal_total_matches_positions_across_operations() {
    let mut pool = fresh();
    let (a, b) = (key(14), key(15));
    let mut pa = empty_position();
    let mut pb = empty_position();
    assert_eq!(stake_sol(&mut pool, &mut pa, &a, 3_000_000, PLENTY, 0, 0), Ok(()));
    assert_eq!(stake_sol(&mut pool, &mut pb, &b, 5_000_000, PLENTY, 0, 10), Ok(()));
    assert_eq!(credit_fee_to_pool(&mut pool, &admin(), 80_000, 8_000, PLENTY), Ok(()));
    assert_eq!(unstake_sol(&mut pool, &mut pa, &a, 1_000_000, PLENTY, 0, 20), Ok(()));
    assert_eq!(pool.total_deposited, pa.deposited_amount + pb.deposited_amount);
    assert_eq!(claim_rewards(&mut pool, &mut pb, &b, PLENTY, 30), Ok(50_000));
    assert_eq!(stake_sol(&mut pool, &mut pa, &a, 500_000, PLENTY, 0, 40), Ok(()));
    assert_eq!(unstake_sol(&mut pool, &mut pb, &b, 5_000_000, PLENTY, 0, 50), Ok(()));
    assert_eq!(pool.total_deposited, pa.deposited_amount + pb.deposited_amount);
    assert_eq!(pa.deposited_amount, 2_500_000);
    assert!(!pb.is_active);
    assert_eq!(pa.pending_rewards, 30_000);
    assert!(pool.total_claimed_rewards <= pool.total_credited_rewards);
}

#[test]
fn reward_per_share_never_drops() {
    let mut pool = fresh();
    let a = key(16);
    let mut pos = empty_position();
    let mut last = pool.reward_per_share;
    assert_eq!(stake_sol(&mut pool, &mut pos, &a, 4_000_000, PLENTY, 0, 0), Ok(()));
    assert!(pool.reward_per_share >= last);
    last = pool.reward_per_share;
    assert_eq!(credit_fee_to_pool(&mut pool, &admin(), 40_000, 0, PLENTY), Ok(()));
    assert!(pool.reward_per_share > last);
    last = pool.reward_per_share;
    assert_eq!(claim_rewards(&mut pool, &mut pos, &a, PLENTY, 10), Ok(40_000));
    assert_eq!(pool.reward_per_share, last);
    assert_eq!(unstake_sol(&mut pool, &mut pos, &a, 1_000_000, PLENTY, 0, 20), Ok(()));
    assert_eq!(pool.reward_per_share, last);
    pool.pending_undistributed_rewards = 3_000;
    assert_eq!(d2d_program_sol::admin::distribute_pending_rewards(&mut pool, &admin(), 10_000, 30), Ok(3_000));
    assert_eq!(pool.reward_per_share, last + 1_000_000_000);
}

#[test]
fn claims_never_exceed_credits() {
    let mut pool = fresh();
    let (a, b) = (key(17), key(18));
    let mut pa = empty_position();
    let mut pb = empty_position();
    assert_eq!(stake_sol(&mut pool, &mut pa, &a, 3_000_000, PLENTY, 0, 0), Ok(()));
    assert_eq!(stake_sol(&mut pool, &mut pb, &b, 7_000_000, PLENTY, 0, 0), Ok(()));
    assert_eq!(credit_fee_to_pool(&mut pool, &admin(), 10_001, 0, PLENTY), Ok(()));
    assert_eq!(claim_rewards(&mut pool, &mut pa, &a, PLENTY, 0), Ok(3_000));
    assert_eq!(claim_rewards(&mut pool, &mut pb, &b, PLENTY, 0), Ok(7_000));
    assert_eq!(pool.total_credited_rewards, 10_001);
    assert_eq!(pool.total_claimed_rewards, 10_000);
    assert!(pool.total_claimed_rewards <= pool.total_credited_rewards);
    assert_eq!(pool.get_protected_rewards(), 1);
    assert_eq!(pool.get_excess_rewards(), 0);
    assert_eq!(
        d2d_program_sol::admin::admin_withdraw_reward_pool(&mut pool, &admin(), 1, PLENTY),
        Err(ErrorCode::CannotWithdrawProtectedRewards)
    );
}

#[test]
fn settling_twice_changes_nothing() {
    let mut pool = fresh();
    let a = key(19);
    let mut pos = empty_position();
    assert_eq!(stake_sol(&mut pool, &mut pos, &a, 1_000_000, PLENTY, 0, 0), Ok(()));
    assert_eq!(credit_fee_to_pool(&mut pool, &admin(), 5_000, 0, PLENTY), Ok(()));
    assert_eq!(pos.settle_pending_rewards(pool.reward_per_share), Ok(()));
    let once = pos;
    assert_eq!(once.pending_rewards, 5_000);
    assert_eq!(pos.settle_pending_rewards(pool.reward_per_share), Ok(()));
    assert_eq!(pos.pending_rewards, once.pending_rewards);
    assert_eq!(pos.reward_debt, once.reward_debt);
}

#[test]
fn claim_cannot_exceed_credited_rewards() {
    let mut pool = fresh();
    pool.reward_pool_balance = 100;
    let a = key(22);
    let mut pos = BackerDeposit::new(a, 0, 0);
    pos.pending_rewards = 100;
    assert_eq!(claim_rewards(&mut pool, &mut pos, &a, PLENTY, 0), Err(ErrorCode::InsufficientTreasuryFunds));
    assert_eq!(pool.total_claimed_rewards, 0);
    assert_eq!(pos.pending_rewards, 100);
    pool.total_credited_rewards = 60;
    assert_eq!(claim_rewards(&mut pool, &mut pos, &a, PLENTY, 0), Err(ErrorCode::InsufficientTreasuryFunds));
    pool.total_credited_rewards = 100;
    assert_eq!(claim_rewards(&mut pool, &mut pos, &a, PLENTY, 0), Ok(100));
    assert_eq!(pool.total_claimed_rewards, pool.total_credited_rewards);
}
