use vstd::prelude::*;

use crate::errors::ErrorCode;
use crate::lender::available_liquidity;
use crate::pending_withdrawal::{PendingWithdrawal, WithdrawalType};
use crate::pubkey::{Pubkey, zero_key};
use crate::treasury_pool::{TreasuryPool, add_u64, sub_u64, u64_fits};

verus! {

/// The recorded balance of the pool a withdrawal draws from.
pub open spec fn pool_balance(pool: TreasuryPool, withdrawal_type: WithdrawalType) -> u64 {
    match withdrawal_type {
        WithdrawalType::PlatformPool => pool.platform_pool_balance,
        WithdrawalType::RewardPool => pool.reward_pool_balance,
    }
}

/// The failure of initiating a privileged withdrawal, if any, checked in this order.
pub open spec fn initiate_error(
    pool: TreasuryPool,
    caller: Pubkey,
    withdrawal_type: WithdrawalType,
    amount: u64,
    now: i64,
) -> Option<ErrorCode> {
    if !pool.is_admin_spec(caller) {
        Some(ErrorCode::Unauthorized)
    } else if pool.emergency_pause {
        Some(ErrorCode::ProgramPaused)
    } else if amount == 0 {
        Some(ErrorCode::InvalidAmount)
    } else if pool.pending_withdrawal_count != 0 {
        Some(ErrorCode::PendingWithdrawalExists)
    } else if pool_balance(pool, withdrawal_type) < amount {
        Some(ErrorCode::InsufficientTreasuryFunds)
    } else if pool.daily_withdrawal_limit > 0 && amount > pool.remaining_daily_allowance(now as int) {
        Some(ErrorCode::DailyWithdrawalLimitExceeded)
    } else if now + pool.timelock_duration > i64::MAX || now + pool.timelock_duration < i64::MIN || now
        + pool.timelock_duration + PendingWithdrawal::VALIDITY_PERIOD > i64::MAX {
        Some(ErrorCode::CalculationOverflow)
    } else {
        None
    }
}

/// Proposes a withdrawal from the platform or reward pool (admin only).
/// Only one may be in flight; it becomes executable after the timelock and
/// stays so for the validity period. Returns the new proposal.
pub fn initiate_withdrawal(
    pool: &mut TreasuryPool,
    caller: &Pubkey,
    withdrawal_type: WithdrawalType,
    amount: u64,
    destination: Pubkey,
    reason: String,
    bump: u8,
    current_time: i64,
) -> (r: Result<PendingWithdrawal, ErrorCode>)
    ensures
        match initiate_error(*old(pool), *caller, withdrawal_type, amount, current_time) {
            Some(e) => r == Err::<PendingWithdrawal, ErrorCode>(e) && *final(pool) == *old(pool),
            None => {
                &&& r is Ok
                &&& *final(pool) == (TreasuryPool { pending_withdrawal_count: 1, ..*old(pool) })
                &&& r->Ok_0.withdrawal_type == withdrawal_type
                &&& r->Ok_0.amount == amount
                &&& r->Ok_0.destination == destination
                &&& r->Ok_0.initiator == *caller
                &&& r->Ok_0.initiated_at == current_time
                &&& r->Ok_0.execute_after == current_time + old(pool).timelock_duration
                &&& r->Ok_0.expires_at == current_time + old(pool).timelock_duration + PendingWithdrawal::VALIDITY_PERIOD
                &&& r->Ok_0.reason@ == reason@
                &&& !r->Ok_0.executed
                &&& !r->Ok_0.vetoed
                &&& r->Ok_0.bump == bump
            },
        },
{
    if !pool.is_admin(caller) {
        return Err(ErrorCode::Unauthorized);
    }
    if pool.emergency_pause {
        return Err(ErrorCode::ProgramPaused);
    }
    if amount == 0 {
        return Err(ErrorCode::InvalidAmount);
    }
    if pool.pending_withdrawal_count != 0 {
        return Err(ErrorCode::PendingWithdrawalExists);
    }
    let balance = match withdrawal_type {
        WithdrawalType::PlatformPool => pool.platform_pool_balance,
        WithdrawalType::RewardPool => pool.reward_pool_balance,
    };
    if balance < amount {
        return Err(ErrorCode::InsufficientTreasuryFunds);
    }
    let remaining_allowance = pool.get_remaining_daily_allowance(current_time);
    if pool.daily_withdrawal_limit > 0 && amount > remaining_allowance {
        return Err(ErrorCode::DailyWithdrawalLimitExceeded);
    }
    let execute_after = match current_time.checked_add(pool.timelock_duration) {
        Some(v) => v,
        None => return Err(ErrorCode::CalculationOverflow),
    };
    let expires_at = match execute_after.checked_add(PendingWithdrawal::VALIDITY_PERIOD) {
        Some(v) => v,
        None => return Err(ErrorCode::CalculationOverflow),
    };
    pool.pending_withdrawal_count = 1;
    Ok(
        PendingWithdrawal {
            withdrawal_type,
            amount,
            destination,
            initiator: *caller,
            initiated_at: current_time,
            execute_after,
            expires_at,
            reason,
            executed: false,
            vetoed: false,
            bump,
        },
    )
}

/// The failure of executing a proposal, if any, checked in this order.
/// `source_lamports` is the observed balance of the pool drawn from.
pub open spec fn execute_error(
    pool: TreasuryPool,
    pending: PendingWithdrawal,
    caller: Pubkey,
    destination: Pubkey,
    source_lamports: u64,
    now: i64,
) -> Option<ErrorCode> {
    let amount = pending.amount;
    if !pool.is_admin_spec(caller) {
        Some(ErrorCode::Unauthorized)
    } else if destination@ != pending.destination@ {
        Some(ErrorCode::InvalidTreasuryWallet)
    } else if pool.emergency_pause {
        Some(ErrorCode::ProgramPaused)
    } else if pending.executed || pending.vetoed {
        Some(ErrorCode::NoPendingWithdrawal)
    } else if now < pending.execute_after {
        Some(ErrorCode::TimelockNotExpired)
    } else if now > pending.expires_at {
        Some(ErrorCode::PendingWithdrawalExpired)
    } else if pool.daily_limit_error(amount, now as int) is Some {
        pool.daily_limit_error(amount, now as int)
    } else if pending.withdrawal_type == WithdrawalType::RewardPool && amount > pool.excess_rewards() {
        Some(ErrorCode::CannotWithdrawProtectedRewards)
    } else if source_lamports < amount || pool_balance(pool, pending.withdrawal_type) < amount {
        Some(ErrorCode::InsufficientTreasuryFunds)
    } else {
        None
    }
}

/// The ledger after a proposal has been executed.
pub open spec fn execute_spec(pool: TreasuryPool, pending: PendingWithdrawal, now: i64) -> TreasuryPool {
    let pool_mid = pool.daily_limit_spec(pending.amount, now as int);
    match pending.withdrawal_type {
        WithdrawalType::PlatformPool => TreasuryPool {
            platform_pool_balance: (pool_mid.platform_pool_balance - pending.amount) as u64,
            pending_withdrawal_count: 0,
            ..pool_mid
        },
        WithdrawalType::RewardPool => TreasuryPool {
            reward_pool_balance: (pool_mid.reward_pool_balance - pending.amount) as u64,
            pending_withdrawal_count: 0,
            ..pool_mid
        },
    }
}

/// Carries out a proposal whose timelock has passed and which has not
/// expired (admin only). Reward-pool withdrawals may only take excess
/// rewards. Marks the proposal executed and frees the slot; the caller moves
/// `pending.amount` from the pool to the destination.
pub fn execute_withdrawal(
    pool: &mut TreasuryPool,
    pending: &mut PendingWithdrawal,
    caller: &Pubkey,
    destination: &Pubkey,
    source_lamports: u64,
    current_time: i64,
) -> (r: Result<(), ErrorCode>)
    ensures
        r == (match execute_error(*old(pool), *old(pending), *caller, *destination, source_lamports, current_time) {
            Some(e) => Err::<(), ErrorCode>(e),
            None => Ok(()),
        }),
        r.is_ok() ==> *final(pool) == execute_spec(*old(pool), *old(pending), current_time) && final(pending).executed
            && final(pending).amount == old(pending).amount && final(pending).withdrawal_type == old(
            pending,
        ).withdrawal_type,
        r.is_err() ==> *final(pool) == *old(pool) && *final(pending) == *old(pending),
{
    if !pool.is_admin(caller) {
        return Err(ErrorCode::Unauthorized);
    }
    if !destination.same(&pending.destination) {
        return Err(ErrorCode::InvalidTreasuryWallet);
    }
    if pool.emergency_pause {
        return Err(ErrorCode::ProgramPaused);
    }
    if pending.executed || pending.vetoed {
        return Err(ErrorCode::NoPendingWithdrawal);
    }
    if !pending.can_execute(current_time) {
        return Err(ErrorCode::TimelockNotExpired);
    }
    if pending.is_expired(current_time) {
        return Err(ErrorCode::PendingWithdrawalExpired);
    }
    let amount = pending.amount;
    let mut p = *pool;
    p.check_and_update_daily_limit(amount, current_time)?;
    match pending.withdrawal_type {
        WithdrawalType::PlatformPool => {
            if source_lamports < amount || p.platform_pool_balance < amount {
                return Err(ErrorCode::InsufficientTreasuryFunds);
            }
            p.platform_pool_balance = p.platform_pool_balance - amount;
        },
        WithdrawalType::RewardPool => {
            if amount > pool.get_excess_rewards() {
                return Err(ErrorCode::CannotWithdrawProtectedRewards);
            }
            if source_lamports < amount || p.reward_pool_balance < amount {
                return Err(ErrorCode::InsufficientTreasuryFunds);
            }
            p.reward_pool_balance = p.reward_pool_balance - amount;
        },
    }
    p.pending_withdrawal_count = 0;
    *pool = p;
    pending.executed = true;
    Ok(())
}

/// The failure of a guardian veto, if any, checked in this order.
pub open spec fn veto_error(pool: TreasuryPool, pending: PendingWithdrawal, guardian: Pubkey, now: i64) -> Option<ErrorCode> {
    if !pool.has_guardian_spec() {
        Some(ErrorCode::GuardianNotSet)
    } else if guardian@ != pool.guardian@ {
        Some(ErrorCode::OnlyGuardian)
    } else if pending.executed || pending.vetoed {
        Some(ErrorCode::NoPendingWithdrawal)
    } else if now >= pending.execute_after {
        Some(ErrorCode::TimelockNotExpired)
    } else {
        None
    }
}

/// The guardian blocks a proposal during its timelock window, freeing the slot.
pub fn guardian_veto(pool: &mut TreasuryPool, pending: &mut PendingWithdrawal, guardian: &Pubkey, current_time: i64) -> (r: Result<(), ErrorCode>)
    ensures
        r == (match veto_error(*old(pool), *old(pending), *guardian, current_time) {
            Some(e) => Err::<(), ErrorCode>(e),
            None => Ok(()),
        }),
        r.is_ok() ==> *final(pool) == (TreasuryPool { pending_withdrawal_count: 0, ..*old(pool) })
            && final(pending).vetoed && !final(pending).executed,
        r.is_err() ==> *final(pool) == *old(pool) && *final(pending) == *old(pending),
{
    if !pool.has_guardian() {
        return Err(ErrorCode::GuardianNotSet);
    }
    if !guardian.same(&pool.guardian) {
        return Err(ErrorCode::OnlyGuardian);
    }
    if pending.executed || pending.vetoed {
        return Err(ErrorCode::NoPendingWithdrawal);
    }
    if !pending.can_veto(current_time) {
        return Err(ErrorCode::TimelockNotExpired);
    }
    pool.pending_withdrawal_count = 0;
    pending.vetoed = true;
    Ok(())
}

/// The admin withdraws a proposal that has been neither executed nor vetoed.
pub fn cancel_withdrawal(pool: &mut TreasuryPool, pending: &PendingWithdrawal, caller: &Pubkey) -> (r: Result<(), ErrorCode>)
    ensures
        r == (if !old(pool).is_admin_spec(*caller) {
            Err::<(), ErrorCode>(ErrorCode::Unauthorized)
        } else if pending.executed || pending.vetoed {
            Err::<(), ErrorCode>(ErrorCode::NoPendingWithdrawal)
        } else {
            Ok(())
        }),
        r.is_ok() ==> *final(pool) == (TreasuryPool { pending_withdrawal_count: 0, ..*old(pool) }),
        r.is_err() ==> *final(pool) == *old(pool),
{
    if !pool.is_admin(caller) {
        return Err(ErrorCode::Unauthorized);
    }
    if pending.executed || pending.vetoed {
        return Err(ErrorCode::NoPendingWithdrawal);
    }
    pool.pending_withdrawal_count = 0;
    Ok(())
}

/// Direct withdrawal of excess rewards by the admin. `reward_pool_lamports`
/// is the reward pool's observed balance; the caller moves `amount` out.
pub fn admin_withdraw_reward_pool(pool: &mut TreasuryPool, caller: &Pubkey, amount: u64, reward_pool_lamports: u64) -> (r: Result<(), ErrorCode>)
    ensures
        r == (if !old(pool).is_admin_spec(*caller) {
            Err::<(), ErrorCode>(ErrorCode::Unauthorized)
        } else if old(pool).emergency_pause {
            Err::<(), ErrorCode>(ErrorCode::ProgramPaused)
        } else if amount == 0 {
            Err::<(), ErrorCode>(ErrorCode::InvalidAmount)
        } else if old(pool).reward_pool_balance < amount {
            Err::<(), ErrorCode>(ErrorCode::InsufficientTreasuryFunds)
        } else if amount > old(pool).excess_rewards() {
            Err::<(), ErrorCode>(ErrorCode::CannotWithdrawProtectedRewards)
        } else if reward_pool_lamports < amount {
            Err::<(), ErrorCode>(ErrorCode::InsufficientTreasuryFunds)
        } else {
            Ok(())
        }),
        r.is_ok() ==> *final(pool) == (TreasuryPool {
            reward_pool_balance: (old(pool).reward_pool_balance - amount) as u64,
            ..*old(pool)
        }),
        r.is_err() ==> *final(pool) == *old(pool),
{
    if !pool.is_admin(caller) {
        return Err(ErrorCode::Unauthorized);
    }
    if pool.emergency_pause {
        return Err(ErrorCode::ProgramPaused);
    }
    if amount == 0 {
        return Err(ErrorCode::InvalidAmount);
    }
    if pool.reward_pool_balance < amount {
        return Err(ErrorCode::InsufficientTreasuryFunds);
    }
    if amount > pool.get_excess_rewards() {
        return Err(ErrorCode::CannotWithdrawProtectedRewards);
    }
    if reward_pool_lamports < amount {
        return Err(ErrorCode::InsufficientTreasuryFunds);
    }
    pool.reward_pool_balance = pool.reward_pool_balance - amount;
    Ok(())
}

/// Sets or clears (all-zero key) the guardian; the admin cannot be its own guardian.
pub fn set_guardian(pool: &mut TreasuryPool, caller: &Pubkey, new_guardian: Pubkey) -> (r: Result<(), ErrorCode>)
    ensures
        r == (if !old(pool).is_admin_spec(*caller) {
            Err::<(), ErrorCode>(ErrorCode::Unauthorized)
        } else if new_guardian@ != zero_key() && new_guardian@ == old(pool).admin@ {
            Err::<(), ErrorCode>(ErrorCode::InvalidGuardianAddress)
        } else {
            Ok(())
        }),
        r.is_ok() ==> *final(pool) == (TreasuryPool { guardian: new_guardian, ..*old(pool) }),
        r.is_err() ==> *final(pool) == *old(pool),
{
    if !pool.is_admin(caller) {
        return Err(ErrorCode::Unauthorized);
    }
    if !new_guardian.is_zero() && new_guardian.same(&pool.admin) {
        return Err(ErrorCode::InvalidGuardianAddress);
    }
    pool.guardian = new_guardian;
    Ok(())
}

/// Sets the timelock, which must lie between one hour and seven days.
pub fn set_timelock_duration(pool: &mut TreasuryPool, caller: &Pubkey, new_duration: i64) -> (r: Result<(), ErrorCode>)
    ensures
        r == (if !old(pool).is_admin_spec(*caller) {
            Err::<(), ErrorCode>(ErrorCode::Unauthorized)
        } else if new_duration < TreasuryPool::MIN_TIMELOCK_DURATION || new_duration
            > TreasuryPool::MAX_TIMELOCK_DURATION {
            Err::<(), ErrorCode>(ErrorCode::InvalidTimelockDuration)
        } else {
            Ok(())
        }),
        r.is_ok() ==> *final(pool) == (TreasuryPool { timelock_duration: new_duration, ..*old(pool) }),
        r.is_err() ==> *final(pool) == *old(pool),
{
    if !pool.is_admin(caller) {
        return Err(ErrorCode::Unauthorized);
    }
    if new_duration < TreasuryPool::MIN_TIMELOCK_DURATION || new_duration > TreasuryPool::MAX_TIMELOCK_DURATION {
        return Err(ErrorCode::InvalidTimelockDuration);
    }
    pool.timelock_duration = new_duration;
    Ok(())
}

/// Sets the daily quota for privileged withdrawals (zero: unlimited).
pub fn set_daily_limit(pool: &mut TreasuryPool, caller: &Pubkey, new_limit: u64) -> (r: Result<(), ErrorCode>)
    ensures
        r == (if !old(pool).is_admin_spec(*caller) {
            Err::<(), ErrorCode>(ErrorCode::Unauthorized)
        } else {
            Ok(())
        }),
        r.is_ok() ==> *final(pool) == (TreasuryPool { daily_withdrawal_limit: new_limit, ..*old(pool) }),
        r.is_err() ==> *final(pool) == *old(pool),
{
    if !pool.is_admin(caller) {
        return Err(ErrorCode::Unauthorized);
    }
    pool.daily_withdrawal_limit = new_limit;
    Ok(())
}

/// The guardian pauses the pool; pausing a paused pool is a no-op.
pub fn guardian_pause(pool: &mut TreasuryPool, guardian: &Pubkey) -> (r: Result<(), ErrorCode>)
    ensures
        r == (if !old(pool).has_guardian_spec() {
            Err::<(), ErrorCode>(ErrorCode::GuardianNotSet)
        } else if guardian@ != old(pool).guardian@ {
            Err::<(), ErrorCode>(ErrorCode::OnlyGuardian)
        } else {
            Ok(())
        }),
        r.is_ok() ==> *final(pool) == (TreasuryPool { emergency_pause: true, ..*old(pool) }),
        r.is_err() ==> *final(pool) == *old(pool),
{
    if !pool.has_guardian() {
        return Err(ErrorCode::GuardianNotSet);
    }
    if !guardian.same(&pool.guardian) {
        return Err(ErrorCode::OnlyGuardian);
    }
    pool.emergency_pause = true;
    Ok(())
}

/// The admin switches the global pause on or off.
pub fn emergency_pause(pool: &mut TreasuryPool, caller: &Pubkey, pause: bool) -> (r: Result<(), ErrorCode>)
    ensures
        r == (if !old(pool).is_admin_spec(*caller) {
            Err::<(), ErrorCode>(ErrorCode::Unauthorized)
        } else {
            Ok(())
        }),
        r.is_ok() ==> *final(pool) == (TreasuryPool { emergency_pause: pause, ..*old(pool) }),
        r.is_err() ==> *final(pool) == *old(pool),
{
    if !pool.is_admin(caller) {
        return Err(ErrorCode::Unauthorized);
    }
    pool.emergency_pause = pause;
    Ok(())
}

/// The failure of crediting fee income, if any, checked in this order.
pub open spec fn credit_fee_instruction_error(
    pool: TreasuryPool,
    caller: Pubkey,
    fee_reward: u64,
    fee_platform: u64,
    fee_payer_lamports: u64,
) -> Option<ErrorCode> {
    if !pool.is_admin_spec(caller) {
        Some(ErrorCode::Unauthorized)
    } else if pool.emergency_pause {
        Some(ErrorCode::ProgramPaused)
    } else if fee_reward == 0 && fee_platform == 0 {
        Some(ErrorCode::InvalidAmount)
    } else if !u64_fits(fee_reward + fee_platform) {
        Some(ErrorCode::CalculationOverflow)
    } else if fee_payer_lamports < fee_reward + fee_platform {
        Some(ErrorCode::InsufficientDeposit)
    } else {
        pool.credit_fee_error(fee_reward, fee_platform)
    }
}

/// The admin credits fee income paid by `fee_payer_lamports`' owner; the
/// caller moves `fee_reward` to the reward pool and `fee_platform` to the
/// platform pool.
pub fn credit_fee_to_pool(
    pool: &mut TreasuryPool,
    caller: &Pubkey,
    fee_reward: u64,
    fee_platform: u64,
    fee_payer_lamports: u64,
) -> (r: Result<(), ErrorCode>)
    ensures
        r == (match credit_fee_instruction_error(*old(pool), *caller, fee_reward, fee_platform, fee_payer_lamports) {
            Some(e) => Err::<(), ErrorCode>(e),
            None => Ok(()),
        }),
        r.is_ok() ==> *final(pool) == old(pool).credit_fee_spec(fee_reward, fee_platform),
        r.is_err() ==> *final(pool) == *old(pool),
{
    if !pool.is_admin(caller) {
        return Err(ErrorCode::Unauthorized);
    }
    if pool.emergency_pause {
        return Err(ErrorCode::ProgramPaused);
    }
    if fee_reward == 0 && fee_platform == 0 {
        return Err(ErrorCode::InvalidAmount);
    }
    let total_fees = add_u64(fee_reward, fee_platform)?;
    if fee_payer_lamports < total_fees {
        return Err(ErrorCode::InsufficientDeposit);
    }
    pool.credit_fee_to_pool(fee_reward, fee_platform)
}

/// The failure of releasing held-back rewards, if any, checked in this order.
pub open spec fn distribute_error(pool: TreasuryPool, caller: Pubkey, percentage_bps: u64) -> Option<ErrorCode> {
    if !pool.is_admin_spec(caller) && !pool.is_guardian_spec(caller) {
        Some(ErrorCode::Unauthorized)
    } else if pool.emergency_pause {
        Some(ErrorCode::ProgramPaused)
    } else if percentage_bps == 0 || percentage_bps > 10000 {
        Some(ErrorCode::InvalidDistributionPercentage)
    } else if pool.pending_undistributed_rewards == 0 {
        Some(ErrorCode::NoPendingRewards)
    } else if pool.total_deposited == 0 {
        Some(ErrorCode::NoStakersForDistribution)
    } else if pool.distribution_amount(percentage_bps) > 0 && !crate::treasury_pool::u128_fits(
        pool.reward_per_share + crate::treasury_pool::share_delta(
            pool.distribution_amount(percentage_bps),
            pool.total_deposited as int,
        ),
    ) {
        Some(ErrorCode::CalculationOverflow)
    } else {
        None
    }
}

/// Releases `percentage_bps` (in (0, 10000]) of the held-back rewards to
/// the stakers (admin or guardian). Returns the amount released.
pub fn distribute_pending_rewards(pool: &mut TreasuryPool, caller: &Pubkey, percentage_bps: u64, current_time: i64) -> (r: Result<u64, ErrorCode>)
    ensures
        r == (match distribute_error(*old(pool), *caller, percentage_bps) {
            Some(e) => Err::<u64, ErrorCode>(e),
            None => Ok(old(pool).distribution_amount(percentage_bps) as u64),
        }),
        r.is_ok() ==> *final(pool) == (TreasuryPool {
            last_weight_update: current_time,
            ..old(pool).distribute_spec(percentage_bps)
        }),
        r.is_err() ==> *final(pool) == *old(pool),
{
    if !pool.is_admin_or_guardian(caller) {
        return Err(ErrorCode::Unauthorized);
    }
    if pool.emergency_pause {
        return Err(ErrorCode::ProgramPaused);
    }
    if percentage_bps == 0 || percentage_bps > 10000 {
        return Err(ErrorCode::InvalidDistributionPercentage);
    }
    if pool.pending_undistributed_rewards == 0 {
        return Err(ErrorCode::NoPendingRewards);
    }
    if pool.total_deposited == 0 {
        return Err(ErrorCode::NoStakersForDistribution);
    }
    let amount = pool.distribute_pending_rewards(percentage_bps)?;
    pool.last_weight_update = current_time;
    Ok(amount)
}

/// Sets the liquid balance to the treasury's observed balance minus its rent reserve.
pub fn sync_liquid_balance(pool: &mut TreasuryPool, caller: &Pubkey, treasury_lamports: u64, rent_exemption: u64) -> (r: Result<(), ErrorCode>)
    ensures
        r == (if !old(pool).is_admin_spec(*caller) {
            Err::<(), ErrorCode>(ErrorCode::Unauthorized)
        } else if old(pool).emergency_pause {
            Err::<(), ErrorCode>(ErrorCode::ProgramPaused)
        } else if rent_exemption > treasury_lamports {
            Err::<(), ErrorCode>(ErrorCode::CalculationOverflow)
        } else {
            Ok(())
        }),
        r.is_ok() ==> *final(pool) == (TreasuryPool {
            liquid_balance: (treasury_lamports - rent_exemption) as u64,
            ..*old(pool)
        }),
        r.is_err() ==> *final(pool) == *old(pool),
{
    if !pool.is_admin(caller) {
        return Err(ErrorCode::Unauthorized);
    }
    if pool.emergency_pause {
        return Err(ErrorCode::ProgramPaused);
    }
    pool.liquid_balance = available_liquidity(treasury_lamports, rent_exemption)?;
    Ok(())
}

/// Sets the liquid balance to what the treasury holds beyond its rent
/// reserve and the reward and platform pools.
pub fn force_rebalance(pool: &mut TreasuryPool, caller: &Pubkey, treasury_lamports: u64, rent_exemption: u64) -> (r: Result<(), ErrorCode>)
    ensures
        r == (if !old(pool).is_admin_spec(*caller) {
            Err::<(), ErrorCode>(ErrorCode::Unauthorized)
        } else if old(pool).emergency_pause {
            Err::<(), ErrorCode>(ErrorCode::ProgramPaused)
        } else if rent_exemption > treasury_lamports || !u64_fits(
            old(pool).reward_pool_balance + old(pool).platform_pool_balance,
        ) || treasury_lamports - rent_exemption < old(pool).reward_pool_balance + old(pool).platform_pool_balance {
            Err::<(), ErrorCode>(ErrorCode::CalculationOverflow)
        } else {
            Ok(())
        }),
        r.is_ok() ==> *final(pool) == (TreasuryPool {
            liquid_balance: (treasury_lamports - rent_exemption - old(pool).reward_pool_balance
                - old(pool).platform_pool_balance) as u64,
            ..*old(pool)
        }),
        r.is_err() ==> *final(pool) == *old(pool),
{
    if !pool.is_admin(caller) {
        return Err(ErrorCode::Unauthorized);
    }
    if pool.emergency_pause {
        return Err(ErrorCode::ProgramPaused);
    }
    let balance_after_rent = available_liquidity(treasury_lamports, rent_exemption)?;
    let other_pools = add_u64(pool.reward_pool_balance, pool.platform_pool_balance)?;
    pool.liquid_balance = sub_u64(balance_after_rent, other_pools)?;
    Ok(())
}

/// The admin drains the treasury account down to its rent reserve; returns
/// the amount the caller moves to the admin.
pub fn close_treasury_pool(pool: &TreasuryPool, caller: &Pubkey, treasury_lamports: u64, rent_exemption: u64) -> (r: Result<u64, ErrorCode>)
    ensures
        r == (if !pool.is_admin_spec(*caller) {
            Err::<u64, ErrorCode>(ErrorCode::Unauthorized)
        } else if rent_exemption <= treasury_lamports {
            Ok::<u64, ErrorCode>((treasury_lamports - rent_exemption) as u64)
        } else {
            Ok::<u64, ErrorCode>(0)
        }),
{
    if !pool.is_admin(caller) {
        return Err(ErrorCode::Unauthorized);
    }
    Ok(treasury_lamports.saturating_sub(rent_exemption))
}


/// A fresh ledger: nothing deposited, default fees, timelock and APY
/// parameters, no daily limit; `guardian` is the all-zero key.
pub open spec fn fresh_pool(
    admin: Pubkey,
    dev_wallet: Pubkey,
    guardian: Pubkey,
    reward_pool_bump: u8,
    platform_pool_bump: u8,
    bump: u8,
) -> TreasuryPool {
    TreasuryPool {
        reward_per_share: 0,
        total_deposited: 0,
        liquid_balance: 0,
        reward_pool_balance: 0,
        platform_pool_balance: 0,
        reward_fee_bps: TreasuryPool::REWARD_FEE_BPS,
        platform_fee_bps: TreasuryPool::PLATFORM_FEE_BPS,
        admin,
        dev_wallet,
        emergency_pause: false,
        guardian,
        timelock_duration: TreasuryPool::DEFAULT_TIMELOCK_DURATION,
        pending_withdrawal_count: 0,
        daily_withdrawal_limit: TreasuryPool::DEFAULT_DAILY_LIMIT,
        last_withdrawal_day: 0,
        withdrawn_today: 0,
        total_credited_rewards: 0,
        total_claimed_rewards: 0,
        reward_pool_bump,
        platform_pool_bump,
        bump,
        total_borrowed: 0,
        total_recovered: 0,
        total_debt_repaid: 0,
        active_deployment_count: 0,
        total_stake_duration_weight: 0,
        last_weight_update: 0,
        pending_undistributed_rewards: 0,
        withdrawal_queue_head: 0,
        withdrawal_queue_tail: 0,
        queued_withdrawal_amount: 0,
        base_apy_bps: TreasuryPool::DEFAULT_BASE_APY_BPS,
        max_apy_multiplier_bps: TreasuryPool::DEFAULT_MAX_APY_MULTIPLIER_BPS,
        target_utilization_bps: TreasuryPool::DEFAULT_TARGET_UTILIZATION_BPS,
    }
}

/// Creates the ledger with `admin` as its administrator.
pub fn initialize(admin: &Pubkey, dev_wallet: Pubkey, reward_pool_bump: u8, platform_pool_bump: u8, bump: u8) -> (r: TreasuryPool)
    ensures
        r == fresh_pool(*admin, dev_wallet, r.guardian, reward_pool_bump, platform_pool_bump, bump),
        r.guardian@ == zero_key(),
{
    let guardian = Pubkey::zero();
    TreasuryPool {
        reward_per_share: 0,
        total_deposited: 0,
        liquid_balance: 0,
        reward_pool_balance: 0,
        platform_pool_balance: 0,
        reward_fee_bps: TreasuryPool::REWARD_FEE_BPS,
        platform_fee_bps: TreasuryPool::PLATFORM_FEE_BPS,
        admin: *admin,
        dev_wallet,
        emergency_pause: false,
        guardian,
        timelock_duration: TreasuryPool::DEFAULT_TIMELOCK_DURATION,
        pending_withdrawal_count: 0,
        daily_withdrawal_limit: TreasuryPool::DEFAULT_DAILY_LIMIT,
        last_withdrawal_day: 0,
        withdrawn_today: 0,
        total_credited_rewards: 0,
        total_claimed_rewards: 0,
        reward_pool_bump,
        platform_pool_bump,
        bump,
        total_borrowed: 0,
        total_recovered: 0,
        total_debt_repaid: 0,
        active_deployment_count: 0,
        total_stake_duration_weight: 0,
        last_weight_update: 0,
        pending_undistributed_rewards: 0,
        withdrawal_queue_head: 0,
        withdrawal_queue_tail: 0,
        queued_withdrawal_amount: 0,
        base_apy_bps: TreasuryPool::DEFAULT_BASE_APY_BPS,
        max_apy_multiplier_bps: TreasuryPool::DEFAULT_MAX_APY_MULTIPLIER_BPS,
        target_utilization_bps: TreasuryPool::DEFAULT_TARGET_UTILIZATION_BPS,
    }
}

/// Resets the ledger to a fresh state under `admin` (used when its layout
/// cannot be read any more).
pub fn reinitialize_treasury_pool(
    pool: &mut TreasuryPool,
    admin: &Pubkey,
    dev_wallet: Pubkey,
    reward_pool_bump: u8,
    platform_pool_bump: u8,
    bump: u8,
)
    ensures
        *final(pool) == fresh_pool(*admin, dev_wallet, final(pool).guardian, reward_pool_bump, platform_pool_bump, bump),
        final(pool).guardian@ == zero_key(),
{
    *pool = initialize(admin, dev_wallet, reward_pool_bump, platform_pool_bump, bump);
}

} // verus!
