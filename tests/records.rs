use d2d_program_sol::deploy_request::{DeployRequest, DeployRequestStatus};
use d2d_program_sol::developer_escrow::{DeveloperEscrow, TokenType};
use d2d_program_sol::{BackerDeposit, ErrorCode, ManagedProgram, PendingWithdrawal, Pubkey, WithdrawalQueueEntry, WithdrawalType};

fn key(n: u8) -> Pubkey {
    Pubkey::new_from_array([n; 32])
}

fn request() -> DeployRequest {
    DeployRequest {
        request_id: [1; 32],
        developer: key(5),
        program_hash: [2; 32],
        service_fee: 1_000,
        monthly_fee: 500,
        deployment_cost: 10_000,
        borrowed_amount: 10_000,
        subscription_paid_until: 1_000,
        ephemeral_key: None,
        deployed_program_id: None,
        status: DeployRequestStatus::Active,
        created_at: 0,
        bump: 0,
        grace_period_days: 0,
        grace_period_end: 0,
        total_subscribed_months: 1,
        auto_renewal_enabled: true,
        last_renewal_at: 0,
        auto_renewal_failed_count: 2,
        repaid_amount: 0,
        expected_rent_recovery: 0,
        actual_rent_recovered: 0,
        recovery_ratio_bps: 0,
        debt_repaid_at: 0,
    }
}

#[test]
fn pubkey_identity() {
    assert!(Pubkey::zero().is_zero());
    assert!(Pubkey::default().is_zero());
    assert!(!key(1).is_zero());
    assert!(key(3).same(&key(3)));
    assert!(!key(3).same(&key(4)));
    assert!(key(3) == key(3));
    assert_eq!(key(6).to_bytes(), [6; 32]);
}

#[test]
fn settle_moves_rewards_and_is_idempotent() {
    let mut pos = BackerDeposit::new(key(1), 0, 0);
    pos.deposited_amount = 1_000;
    assert_eq!(pos.settle_pending_rewards(3_000_000_000_000), Ok(()));
    assert_eq!(pos.pending_rewards, 3_000);
    assert_eq!(pos.reward_debt, 3_000_000_000_000_000);
    assert_eq!(pos.settle_pending_rewards(3_000_000_000_000), Ok(()));
    assert_eq!(pos.pending_rewards, 3_000);
    assert_eq!(pos.calculate_claimable_rewards(4_000_000_000_000), Ok(4_000));
    assert_eq!(pos.update_reward_debt(5), Ok(()));
    assert_eq!(pos.reward_debt, 5_000);
}

#[test]
fn duration_weight_accrues_and_resets() {
    let mut pos = BackerDeposit::new(key(1), 0, 100);
    pos.deposited_amount = 50;
    assert_eq!(pos.update_duration_weight(160), Ok(3_000));
    assert_eq!(pos.stake_duration_weight, 3_000);
    assert_eq!(pos.last_action_at, 160);
    assert_eq!(pos.update_duration_weight(150), Ok(0));
    assert_eq!(pos.last_action_at, 160);
    pos.reset_duration_weight(200);
    assert_eq!(pos.stake_duration_weight, 0);
    assert_eq!(pos.last_action_at, 200);
}

#[test]
fn position_queue_bookkeeping() {
    let mut pos = BackerDeposit::new(key(1), 0, 0);
    pos.deposited_amount = 100;
    assert_eq!(pos.queue_withdrawal(0, 1, 5), Err(ErrorCode::InvalidAmount));
    assert_eq!(pos.queue_withdrawal(101, 1, 5), Err(ErrorCode::InsufficientStake));
    assert_eq!(pos.cancel_queued_withdrawal(), Err(ErrorCode::NoQueuedWithdrawal));
    assert_eq!(pos.queue_withdrawal(60, 4, 5), Ok(()));
    assert!(pos.has_queued_withdrawal());
    assert_eq!(pos.queue_position, 4);
    assert_eq!(pos.queue_withdrawal(10, 5, 6), Err(ErrorCode::WithdrawalAlreadyQueued));
    assert_eq!(pos.process_queued_withdrawal(20), Ok(()));
    assert_eq!(pos.queued_withdrawal, 40);
    assert_eq!(pos.cancel_queued_withdrawal(), Ok(40));
    assert!(!pos.has_queued_withdrawal());
}

#[test]
fn queue_entry_progress() {
    let mut entry = WithdrawalQueueEntry::new(3, key(1), 1_000, 10, 0);
    assert!(entry.is_pending());
    assert_eq!(entry.get_completion_percentage(), 0);
    assert_eq!(entry.estimate_wait_time(0), i64::MAX);
    assert_eq!(entry.estimate_wait_time(500), 172_800);
    assert_eq!(entry.process_withdrawal(300, 20), 300);
    assert_eq!(entry.get_remaining_amount(), 700);
    assert_eq!(entry.get_completion_percentage(), 30);
    assert_eq!(entry.process_withdrawal(5_000, 30), 700);
    assert!(entry.processed);
    assert_eq!(entry.processed_at, 30);
    assert!(!entry.is_pending());
    assert_eq!(entry.get_completion_percentage(), 100);
    let mut other = WithdrawalQueueEntry::new(4, key(1), 10, 10, 0);
    other.cancel(40);
    assert!(other.processed);
    assert_eq!(other.amount_withdrawn, 0);
}

#[test]
fn pending_withdrawal_windows() {
    let pw = PendingWithdrawal {
        withdrawal_type: WithdrawalType::RewardPool,
        amount: 10,
        destination: key(1),
        initiator: key(2),
        initiated_at: 0,
        execute_after: 100,
        expires_at: 200,
        reason: String::from("r"),
        executed: false,
        vetoed: false,
        bump: 0,
    };
    assert!(pw.can_veto(99));
    assert!(!pw.can_veto(100));
    assert!(!pw.can_execute(99));
    assert!(pw.can_execute(100));
    assert!(!pw.is_expired(200));
    assert!(pw.is_expired(201));
}

#[test]
fn managed_program_upgrade_rights() {
    let mp = ManagedProgram {
        program_id: key(1),
        developer: key(2),
        deploy_request: key(3),
        authority_pda: key(4),
        created_at: 0,
        last_upgraded_at: 0,
        upgrade_count: 0,
        is_active: true,
        bump: 0,
    };
    assert!(mp.can_upgrade(&key(2)));
    assert!(!mp.can_upgrade(&key(3)));
}

#[test]
fn subscription_extension() {
    let mut r = request();
    assert!(r.is_subscription_valid(1_000));
    assert!(!r.is_subscription_valid(1_001));
    assert_eq!(r.extend_subscription(121, 5), Err(ErrorCode::SubscriptionExtensionTooLarge));
    r.status = DeployRequestStatus::InGracePeriod;
    r.grace_period_end = 77;
    assert_eq!(r.extend_subscription(2, 5), Ok(()));
    assert_eq!(r.subscription_paid_until, 1_000 + 2 * 2_592_000);
    assert_eq!(r.total_subscribed_months, 3);
    assert_eq!(r.status, DeployRequestStatus::Active);
    assert_eq!(r.grace_period_end, 0);
    assert_eq!(r.auto_renewal_failed_count, 0);
    assert_eq!(r.last_renewal_at, 5);
    r.subscription_paid_until = i64::MAX - 10;
    assert_eq!(r.extend_subscription(1, 5), Err(ErrorCode::SubscriptionExtensionOverflow));
}

#[test]
fn grace_period_lengths() {
    let mut r = request();
    assert_eq!(r.calculate_grace_period_days(), 3);
    r.total_subscribed_months = 3;
    assert_eq!(r.calculate_grace_period_days(), 5);
    r.total_subscribed_months = 6;
    assert_eq!(r.calculate_grace_period_days(), 7);
    assert_eq!(r.start_grace_period(1_000), Ok(()));
    assert_eq!(r.grace_period_days, 7);
    assert_eq!(r.grace_period_end, 1_000 + 7 * 86_400);
    assert!(r.is_in_grace_period());
    assert!(!r.is_grace_period_expired(1_000 + 7 * 86_400));
    assert!(r.is_grace_period_expired(1_001 + 7 * 86_400));
    r.increment_auto_renewal_failed();
    assert_eq!(r.auto_renewal_failed_count, 3);
}

#[test]
fn borrow_fees_and_repayment() {
    let mut r = request();
    assert_eq!(r.calculate_monthly_borrow_fee(), Ok(100));
    assert_eq!(r.calculate_total_borrow_fees(0), Ok(0));
    assert_eq!(r.calculate_total_borrow_fees(1), Ok(100));
    assert_eq!(r.calculate_total_borrow_fees(2_592_001), Ok(200));
    assert_eq!(r.get_repayment_percentage(), 0);
    assert_eq!(r.record_rent_recovery(4_000, 50), Ok((4_000, 0)));
    assert_eq!(r.get_remaining_debt(), 6_000);
    assert!(!r.is_debt_repaid());
    assert_eq!(r.debt_repaid_at, 0);
    assert_eq!(r.recovery_ratio_bps, 4_000);
    assert_eq!(r.get_repayment_percentage(), 40);
    assert_eq!(r.record_rent_recovery(7_000, 60), Ok((6_000, 1_000)));
    assert!(r.is_debt_repaid());
    assert_eq!(r.debt_repaid_at, 60);
    assert_eq!(r.recovery_ratio_bps, 11_000);
    r.set_expected_rent_recovery(1_000);
    assert_eq!(r.expected_rent_recovery, 800);
}

#[test]
fn escrow_balances() {
    let mut e = DeveloperEscrow::new(key(5), 9, 0);
    assert_eq!(TokenType::default(), TokenType::SOL);
    assert!(e.is_below_alert_threshold());
    assert_eq!(e.add_balance(300, TokenType::USDC, 10), Ok(()));
    assert_eq!(e.get_balance(TokenType::USDC), 300);
    assert_eq!(e.total_deposited_usdc, 300);
    assert_eq!(e.last_deposit_at, 10);
    assert!(!e.can_auto_deduct(300, TokenType::SOL));
    assert!(e.can_auto_deduct(300, TokenType::USDC));
    assert_eq!(e.deduct_balance(301, TokenType::USDC, 11), Err(ErrorCode::InsufficientEscrowBalance));
    assert_eq!(e.deduct_balance(100, TokenType::USDC, 11), Ok(()));
    assert_eq!(e.usdc_balance, 200);
    assert_eq!(e.total_auto_deducted, 100);
    assert_eq!(e.last_auto_deduct_at, 11);
    e.auto_renew_enabled = false;
    assert!(!e.can_auto_deduct(1, TokenType::USDC));
}

#[test]
fn error_messages() {
    assert_eq!(ErrorCode::PendingWithdrawalExists.message(), "A pending withdrawal already exists");
    assert_eq!(ErrorCode::ProgramPaused.message(), "Program is currently paused");
}
