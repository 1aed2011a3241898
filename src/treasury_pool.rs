use vstd::prelude::*;
use vstd::arithmetic::div_mod::{lemma_div_nonincreasing, lemma_div_is_ordered, lemma_multiply_divide_le};

use crate::errors::ErrorCode;
use crate::pubkey::{Pubkey, zero_key};

verus! {

/// The central ledger: pooled liquidity, the reward accumulator, fee pools,
/// debt totals, queue pointers, APY parameters and the safety controls.
#[derive(Clone, Copy, Debug)]
pub struct TreasuryPool {
    pub reward_per_share: u128,
    pub total_deposited: u64,
    pub liquid_balance: u64,
    pub reward_pool_balance: u64,
    pub platform_pool_balance: u64,
    pub reward_fee_bps: u64,
    pub platform_fee_bps: u64,
    pub admin: Pubkey,
    pub dev_wallet: Pubkey,
    pub emergency_pause: bool,
    pub guardian: Pubkey,
    pub timelock_duration: i64,
    pub pending_withdrawal_count: u8,
    pub daily_withdrawal_limit: u64,
    pub last_withdrawal_day: i64,
    pub withdrawn_today: u64,
    pub total_credited_rewards: u64,
    pub total_claimed_rewards: u64,
    pub reward_pool_bump: u8,
    pub platform_pool_bump: u8,
    pub bump: u8,
    /// Outstanding borrowed amount across all active deployments.
    pub total_borrowed: u64,
    /// Lifetime amount recovered from rent reclamation.
    pub total_recovered: u64,
    /// Lifetime amount of debt repaid from rent recovery.
    pub total_debt_repaid: u64,
    pub active_deployment_count: u32,
    /// Sum of principal times seconds staked, over all stakers.
    pub total_stake_duration_weight: u128,
    pub last_weight_update: i64,
    /// Rewards held back for gradual distribution.
    pub pending_undistributed_rewards: u64,
    pub withdrawal_queue_head: u32,
    pub withdrawal_queue_tail: u32,
    pub queued_withdrawal_amount: u64,
    pub base_apy_bps: u64,
    pub max_apy_multiplier_bps: u64,
    pub target_utilization_bps: u64,
}

/// The full product of two 64-bit values.
pub(crate) fn mul_wide(a: u64, b: u64) -> (r: u128)
    ensures
        r == a * b,
{
    assert(a * b <= u64::MAX * u64::MAX) by (nonlinear_arith)
        requires
            a <= u64::MAX,
            b <= u64::MAX,
    ;
    (a as u128) * (b as u128)
}

/// Round-half-up basis-point fee: `amount * bps / 10000`.
pub open spec fn bps_fee(amount: int, bps: int) -> int {
    (amount * bps + 5000) / 10000
}

/// Rewards accrued by `deposited` units since the snapshot `debt`, clamped at zero.
pub open spec fn accrued(deposited: int, rps: int, debt: int) -> int {
    if deposited * rps >= debt {
        (deposited * rps - debt) / (TreasuryPool::PRECISION as int)
    } else {
        0
    }
}

/// Increase of the accumulator when `amount` is shared over `total` units.
pub open spec fn share_delta(amount: int, total: int) -> int {
    amount * (TreasuryPool::PRECISION as int) / total
}

pub open spec fn u64_fits(x: int) -> bool {
    0 <= x <= u64::MAX
}

pub open spec fn u128_fits(x: int) -> bool {
    0 <= x <= u128::MAX
}

pub(crate) fn add_u64(a: u64, b: u64) -> (r: Result<u64, ErrorCode>)
    ensures
        r == (if u64_fits(a + b) {
            Ok::<u64, ErrorCode>((a + b) as u64)
        } else {
            Err::<u64, ErrorCode>(ErrorCode::CalculationOverflow)
        }),
{
    if a <= u64::MAX - b {
        Ok(a + b)
    } else {
        Err(ErrorCode::CalculationOverflow)
    }
}

pub(crate) fn add_u128(a: u128, b: u128) -> (r: Result<u128, ErrorCode>)
    ensures
        r == (if u128_fits(a + b) {
            Ok::<u128, ErrorCode>((a + b) as u128)
        } else {
            Err::<u128, ErrorCode>(ErrorCode::CalculationOverflow)
        }),
{
    if a <= u128::MAX - b {
        Ok(a + b)
    } else {
        Err(ErrorCode::CalculationOverflow)
    }
}

pub(crate) fn sub_u64(a: u64, b: u64) -> (r: Result<u64, ErrorCode>)
    ensures
        r == (if b <= a {
            Ok::<u64, ErrorCode>((a - b) as u64)
        } else {
            Err::<u64, ErrorCode>(ErrorCode::CalculationOverflow)
        }),
{
    if b <= a {
        Ok(a - b)
    } else {
        Err(ErrorCode::CalculationOverflow)
    }
}

/// Round-half-up basis-point fee on an amount, for a rate of at most 100%.
pub(crate) fn bps_fee_exec(amount: u64, bps: u64) -> (r: u64)
    requires
        bps <= 10000,
    ensures
        r == bps_fee(amount as int, bps as int),
{
    assert(amount * bps <= 10000 * u64::MAX) by (nonlinear_arith)
        requires
            amount <= u64::MAX,
            bps <= 10000,
    ;
    let product: u128 = mul_wide(amount, bps);
    let numerator: u128 = product + 5000;
    let fee: u128 = numerator / 10000;
    assert(fee <= u64::MAX) by {
        lemma_multiply_divide_le(numerator as int, 10000, u64::MAX as int + 1);
    }
    fee as u64
}

/// `num * 10000 / den` in basis points, capped at `u64::MAX`.
pub(crate) fn ratio_bps_exec(num: u64, den: u64) -> (r: u64)
    requires
        den > 0,
    ensures
        r == TreasuryPool::ratio_bps(num as int, den as int),
{
    let q: u128 = mul_wide(num, 10000) / (den as u128);
    if q > u64::MAX as u128 {
        u64::MAX
    } else {
        q as u64
    }
}

/// `amount * PRECISION / total`.
pub(crate) fn share_delta_exec(amount: u64, total: u64) -> (r: u128)
    requires
        total > 0,
    ensures
        r == share_delta(amount as int, total as int),
        r <= amount * TreasuryPool::PRECISION,
{
    assert(amount * 1_000_000_000_000 <= u64::MAX * 1_000_000_000_000) by (nonlinear_arith)
        requires
            amount <= u64::MAX,
    ;
    let num: u128 = (amount as u128) * TreasuryPool::PRECISION;
    proof {
        lemma_div_nonincreasing(num as int, total as int);
    }
    num / (total as u128)
}

/// `deposited * rps`, when it fits in 128 bits.
pub(crate) fn accumulated_exec(deposited: u64, rps: u128) -> (r: Result<u128, ErrorCode>)
    ensures
        r == (if u128_fits(deposited * rps) {
            Ok::<u128, ErrorCode>((deposited * rps) as u128)
        } else {
            Err::<u128, ErrorCode>(ErrorCode::CalculationOverflow)
        }),
{
    match (deposited as u128).checked_mul(rps) {
        Some(v) => Ok(v),
        None => Err(ErrorCode::CalculationOverflow),
    }
}

/// Clamped accrual `accrued(deposited, rps, debt)`, when it fits in 64 bits.
pub(crate) fn accrued_exec(deposited: u64, rps: u128, debt: u128) -> (r: Result<u64, ErrorCode>)
    ensures
        r == (if u128_fits(deposited * rps) && u64_fits(accrued(deposited as int, rps as int, debt as int)) {
            Ok::<u64, ErrorCode>(accrued(deposited as int, rps as int, debt as int) as u64)
        } else {
            Err::<u64, ErrorCode>(ErrorCode::CalculationOverflow)
        }),
{
    let acc = accumulated_exec(deposited, rps)?;
    if acc < debt {
        return Ok(0);
    }
    let diff: u128 = acc - debt;
    proof {
        lemma_div_nonincreasing(diff as int, TreasuryPool::PRECISION as int);
    }
    let q: u128 = diff / TreasuryPool::PRECISION;
    if q > u64::MAX as u128 {
        return Err(ErrorCode::CalculationOverflow);
    }
    Ok(q as u64)
}

impl TreasuryPool {
    pub const REWARD_FEE_BPS: u64 = 100;
    pub const PLATFORM_FEE_BPS: u64 = 10;
    pub const PRECISION: u128 = 1_000_000_000_000;
    pub const MAX_AMOUNT: u64 = 1_000_000_000_000_000_000;
    pub const DEFAULT_TIMELOCK_DURATION: i64 = 86400;
    pub const MIN_TIMELOCK_DURATION: i64 = 3600;
    pub const MAX_TIMELOCK_DURATION: i64 = 604800;
    pub const SECONDS_PER_DAY: i64 = 86400;
    pub const DEFAULT_DAILY_LIMIT: u64 = 0;
    /// At most 80% of the deposits may be lent out to deployments.
    pub const MAX_UTILIZATION_BPS: u64 = 8000;
    pub const DEFAULT_BASE_APY_BPS: u64 = 500;
    pub const DEFAULT_MAX_APY_MULTIPLIER_BPS: u64 = 30000;
    pub const DEFAULT_TARGET_UTILIZATION_BPS: u64 = 6000;

    /// The ledger's standing invariant: at most one privileged withdrawal in
    /// flight, a timelock between its bounds, and a queue head that never
    /// passes the tail.
    pub open spec fn wf(self) -> bool {
        &&& self.pending_withdrawal_count <= 1
        &&& Self::MIN_TIMELOCK_DURATION <= self.timelock_duration <= Self::MAX_TIMELOCK_DURATION
        &&& self.withdrawal_queue_head <= self.withdrawal_queue_tail
    }

    /// Reward fee on a deposit (1%, rounded half up).
    pub fn calculate_reward_fee(deposit_amount: u64) -> (r: Result<u64, ErrorCode>)
        ensures
            r == Ok::<u64, ErrorCode>(bps_fee(deposit_amount as int, Self::REWARD_FEE_BPS as int) as u64),
    {
        Ok(bps_fee_exec(deposit_amount, Self::REWARD_FEE_BPS))
    }

    /// Platform fee on a deposit (0.1%, rounded half up).
    pub fn calculate_platform_fee(deposit_amount: u64) -> (r: Result<u64, ErrorCode>)
        ensures
            r == Ok::<u64, ErrorCode>(bps_fee(deposit_amount as int, Self::PLATFORM_FEE_BPS as int) as u64),
    {
        Ok(bps_fee_exec(deposit_amount, Self::PLATFORM_FEE_BPS))
    }

    /// The ledger after fee income has been credited: both pools grow, the
    /// reward part is counted as credited and, while there are deposits,
    /// spread over them through the accumulator.
    pub open spec fn credit_fee_spec(self, fee_reward: u64, fee_platform: u64) -> TreasuryPool {
        TreasuryPool {
            platform_pool_balance: (self.platform_pool_balance + fee_platform) as u64,
            reward_pool_balance: (self.reward_pool_balance + fee_reward) as u64,
            total_credited_rewards: (self.total_credited_rewards + fee_reward) as u64,
            reward_per_share: if self.total_deposited > 0 {
                (self.reward_per_share + share_delta(fee_reward as int, self.total_deposited as int)) as u128
            } else {
                self.reward_per_share
            },
            ..self
        }
    }

    /// The failure of `credit_fee_to_pool`, if any.
    pub open spec fn credit_fee_error(self, fee_reward: u64, fee_platform: u64) -> Option<ErrorCode> {
        if fee_reward > Self::MAX_AMOUNT || fee_platform > Self::MAX_AMOUNT {
            Some(ErrorCode::FeeAmountTooLarge)
        } else if !u64_fits(self.platform_pool_balance + fee_platform)
            || !u64_fits(self.reward_pool_balance + fee_reward)
            || !u64_fits(self.total_credited_rewards + fee_reward)
            || (self.total_deposited > 0 && !u128_fits(
                self.reward_per_share + share_delta(fee_reward as int, self.total_deposited as int),
            )) {
            Some(ErrorCode::CalculationOverflow)
        } else {
            None
        }
    }

    /// Credits fee income to the reward and platform pools.
    pub fn credit_fee_to_pool(&mut self, fee_reward: u64, fee_platform: u64) -> (r: Result<(), ErrorCode>)
        ensures
            r == (match old(self).credit_fee_error(fee_reward, fee_platform) {
                Some(e) => Err::<(), ErrorCode>(e),
                None => Ok(()),
            }),
            r.is_ok() ==> *final(self) == old(self).credit_fee_spec(fee_reward, fee_platform),
            r.is_err() ==> *final(self) == *old(self),
    {
        if fee_reward > Self::MAX_AMOUNT || fee_platform > Self::MAX_AMOUNT {
            return Err(ErrorCode::FeeAmountTooLarge);
        }
        let platform = add_u64(self.platform_pool_balance, fee_platform)?;
        let reward = add_u64(self.reward_pool_balance, fee_reward)?;
        let credited = add_u64(self.total_credited_rewards, fee_reward)?;
        let mut rps = self.reward_per_share;
        if self.total_deposited > 0 {
            let delta = share_delta_exec(fee_reward, self.total_deposited);
            rps = add_u128(rps, delta)?;
        }
        self.platform_pool_balance = platform;
        self.reward_pool_balance = reward;
        self.total_credited_rewards = credited;
        self.reward_per_share = rps;
        Ok(())
    }


    pub fn credit_reward_pool(&mut self, amount: u128) -> (r: Result<(), ErrorCode>)
        ensures
            r == (if amount > Self::MAX_AMOUNT {
                Err::<(), ErrorCode>(ErrorCode::FeeAmountTooLarge)
            } else if !u64_fits(old(self).reward_pool_balance + amount) {
                Err::<(), ErrorCode>(ErrorCode::CalculationOverflow)
            } else {
                Ok(())
            }),
            r.is_ok() ==> *final(self) == (TreasuryPool {
                reward_pool_balance: (old(self).reward_pool_balance + amount) as u64,
                ..*old(self)
            }),
            r.is_err() ==> *final(self) == *old(self),
    {
        if amount > Self::MAX_AMOUNT as u128 {
            return Err(ErrorCode::FeeAmountTooLarge);
        }
        self.reward_pool_balance = add_u64(self.reward_pool_balance, amount as u64)?;
        Ok(())
    }

    pub fn debit_reward_pool(&mut self, amount: u64) -> (r: Result<(), ErrorCode>)
        ensures
            r == (if amount > Self::MAX_AMOUNT {
                Err::<(), ErrorCode>(ErrorCode::FeeAmountTooLarge)
            } else if amount > old(self).reward_pool_balance {
                Err::<(), ErrorCode>(ErrorCode::CalculationOverflow)
            } else {
                Ok(())
            }),
            r.is_ok() ==> *final(self) == (TreasuryPool {
                reward_pool_balance: (old(self).reward_pool_balance - amount) as u64,
                ..*old(self)
            }),
            r.is_err() ==> *final(self) == *old(self),
    {
        if amount > Self::MAX_AMOUNT {
            return Err(ErrorCode::FeeAmountTooLarge);
        }
        self.reward_pool_balance = sub_u64(self.reward_pool_balance, amount)?;
        Ok(())
    }

    pub fn credit_platform_pool(&mut self, amount: u128) -> (r: Result<(), ErrorCode>)
        ensures
            r == (if amount > Self::MAX_AMOUNT {
                Err::<(), ErrorCode>(ErrorCode::FeeAmountTooLarge)
            } else if !u64_fits(old(self).platform_pool_balance + amount) {
                Err::<(), ErrorCode>(ErrorCode::CalculationOverflow)
            } else {
                Ok(())
            }),
            r.is_ok() ==> *final(self) == (TreasuryPool {
                platform_pool_balance: (old(self).platform_pool_balance + amount) as u64,
                ..*old(self)
            }),
            r.is_err() ==> *final(self) == *old(self),
    {
        if amount > Self::MAX_AMOUNT as u128 {
            return Err(ErrorCode::FeeAmountTooLarge);
        }
        self.platform_pool_balance = add_u64(self.platform_pool_balance, amount as u64)?;
        Ok(())
    }

    pub open spec fn has_guardian_spec(self) -> bool {
        self.guardian@ != zero_key()
    }

    pub open spec fn is_admin_spec(self, caller: Pubkey) -> bool {
        self.admin@ == caller@
    }

    pub open spec fn is_guardian_spec(self, caller: Pubkey) -> bool {
        self.has_guardian_spec() && self.guardian@ == caller@
    }

    /// A guardian is set when the guardian key is not all zeros.
    pub fn has_guardian(&self) -> (r: bool)
        ensures
            r == self.has_guardian_spec(),
    {
        !self.guardian.is_zero()
    }

    pub fn is_admin(&self, caller: &Pubkey) -> (r: bool)
        ensures
            r == self.is_admin_spec(*caller),
    {
        self.admin.same(caller)
    }

    pub fn is_guardian(&self, caller: &Pubkey) -> (r: bool)
        ensures
            r == self.is_guardian_spec(*caller),
    {
        self.has_guardian() && self.guardian.same(caller)
    }

    pub fn is_admin_or_guardian(&self, caller: &Pubkey) -> (r: bool)
        ensures
            r == (self.is_admin_spec(*caller) || self.is_guardian_spec(*caller)),
    {
        self.is_admin(caller) || self.is_guardian(caller)
    }

    /// `unix_timestamp` rounded toward zero to a whole number of days: the
    /// start of its UTC day from the epoch on.
    pub open spec fn day_of(unix_timestamp: int) -> int {
        if unix_timestamp >= 0 {
            (unix_timestamp / (Self::SECONDS_PER_DAY as int)) * (Self::SECONDS_PER_DAY as int)
        } else {
            -(((-unix_timestamp) / (Self::SECONDS_PER_DAY as int)) * (Self::SECONDS_PER_DAY as int))
        }
    }

    pub fn get_day_timestamp(unix_timestamp: i64) -> (r: i64)
        ensures
            r == Self::day_of(unix_timestamp as int),
    {
        let t: i128 = unix_timestamp as i128;
        let magnitude: i128 = if t >= 0 { t } else { -t };
        let days: i128 = magnitude / 86400;
        assert(days * 86400 <= magnitude) by {
            vstd::arithmetic::div_mod::lemma_fundamental_div_mod(magnitude as int, 86400);
        }
        let rounded: i128 = days * 86400;
        if t >= 0 {
            rounded as i64
        } else {
            (-rounded) as i64
        }
    }

    /// What has been withdrawn today, counting from zero on a new day.
    pub open spec fn withdrawn_today_at(self, current_time: int) -> int {
        if Self::day_of(current_time) > self.last_withdrawal_day {
            0
        } else {
            self.withdrawn_today as int
        }
    }

    /// The failure of `check_and_update_daily_limit`, if any.
    pub open spec fn daily_limit_error(self, amount: u64, current_time: int) -> Option<ErrorCode> {
        if self.daily_withdrawal_limit == 0 {
            None
        } else if !u64_fits(self.withdrawn_today_at(current_time) + amount) {
            Some(ErrorCode::CalculationOverflow)
        } else if self.withdrawn_today_at(current_time) + amount > self.daily_withdrawal_limit {
            Some(ErrorCode::DailyWithdrawalLimitExceeded)
        } else {
            None
        }
    }

    /// The ledger after `amount` has been counted against the daily quota.
    pub open spec fn daily_limit_spec(self, amount: u64, current_time: int) -> TreasuryPool {
        if self.daily_withdrawal_limit == 0 {
            self
        } else {
            TreasuryPool {
                last_withdrawal_day: if Self::day_of(current_time) > self.last_withdrawal_day {
                    Self::day_of(current_time) as i64
                } else {
                    self.last_withdrawal_day
                },
                withdrawn_today: (self.withdrawn_today_at(current_time) + amount) as u64,
                ..self
            }
        }
    }

    /// Counts `amount` against the daily withdrawal quota; a limit of zero means unlimited.
    pub fn check_and_update_daily_limit(&mut self, amount: u64, current_time: i64) -> (r: Result<(), ErrorCode>)
        ensures
            r == (match old(self).daily_limit_error(amount, current_time as int) {
                Some(e) => Err::<(), ErrorCode>(e),
                None => Ok(()),
            }),
            r.is_ok() ==> *final(self) == old(self).daily_limit_spec(amount, current_time as int),
            r.is_err() ==> *final(self) == *old(self),
    {
        if self.daily_withdrawal_limit == 0 {
            return Ok(());
        }
        let current_day = Self::get_day_timestamp(current_time);
        let mut last_day = self.last_withdrawal_day;
        let mut today: u64 = self.withdrawn_today;
        if current_day > self.last_withdrawal_day {
            last_day = current_day;
            today = 0;
        }
        let new_total = add_u64(today, amount)?;
        if new_total > self.daily_withdrawal_limit {
            return Err(ErrorCode::DailyWithdrawalLimitExceeded);
        }
        self.last_withdrawal_day = last_day;
        self.withdrawn_today = new_total;
        Ok(())
    }

    pub open spec fn remaining_daily_allowance(self, current_time: int) -> int {
        if self.daily_withdrawal_limit == 0 {
            u64::MAX as int
        } else if self.withdrawn_today_at(current_time) >= self.daily_withdrawal_limit {
            0
        } else {
            self.daily_withdrawal_limit - self.withdrawn_today_at(current_time)
        }
    }

    /// What may still be withdrawn today (`u64::MAX` when there is no limit).
    pub fn get_remaining_daily_allowance(&self, current_time: i64) -> (r: u64)
        ensures
            r == self.remaining_daily_allowance(current_time as int),
    {
        if self.daily_withdrawal_limit == 0 {
            return u64::MAX;
        }
        let current_day = Self::get_day_timestamp(current_time);
        if current_day > self.last_withdrawal_day {
            return self.daily_withdrawal_limit;
        }
        self.daily_withdrawal_limit.saturating_sub(self.withdrawn_today)
    }

    /// Rewards credited to stakers and not yet claimed.
    pub open spec fn protected_rewards(self) -> int {
        if self.total_claimed_rewards <= self.total_credited_rewards {
            self.total_credited_rewards - self.total_claimed_rewards
        } else {
            0
        }
    }

    /// Reward-pool balance beyond the protected rewards.
    pub open spec fn excess_rewards(self) -> int {
        if self.protected_rewards() <= self.reward_pool_balance {
            self.reward_pool_balance - self.protected_rewards()
        } else {
            0
        }
    }

    pub fn get_protected_rewards(&self) -> (r: u64)
        ensures
            r == self.protected_rewards(),
    {
        self.total_credited_rewards.saturating_sub(self.total_claimed_rewards)
    }

    pub fn get_excess_rewards(&self) -> (r: u64)
        ensures
            r == self.excess_rewards(),
    {
        let protected = self.get_protected_rewards();
        self.reward_pool_balance.saturating_sub(protected)
    }

    /// Only excess rewards may leave the reward pool by an admin withdrawal.
    pub fn can_withdraw_from_reward_pool(&self, amount: u64) -> (r: bool)
        ensures
            r == (amount <= self.excess_rewards()),
    {
        amount <= self.get_excess_rewards()
    }

    pub fn credit_rewards_with_tracking(&mut self, amount: u64) -> (r: Result<(), ErrorCode>)
        ensures
            r == (if u64_fits(old(self).reward_pool_balance + amount) && u64_fits(old(self).total_credited_rewards + amount) {
                Ok::<(), ErrorCode>(())
            } else {
                Err::<(), ErrorCode>(ErrorCode::CalculationOverflow)
            }),
            r.is_ok() ==> *final(self) == (TreasuryPool {
                reward_pool_balance: (old(self).reward_pool_balance + amount) as u64,
                total_credited_rewards: (old(self).total_credited_rewards + amount) as u64,
                ..*old(self)
            }),
            r.is_err() ==> *final(self) == *old(self),
    {
        let balance = add_u64(self.reward_pool_balance, amount)?;
        let credited = add_u64(self.total_credited_rewards, amount)?;
        self.reward_pool_balance = balance;
        self.total_credited_rewards = credited;
        Ok(())
    }

    pub fn record_claimed_rewards(&mut self, amount: u64) -> (r: Result<(), ErrorCode>)
        ensures
            r == (if u64_fits(old(self).total_claimed_rewards + amount) {
                Ok::<(), ErrorCode>(())
            } else {
                Err::<(), ErrorCode>(ErrorCode::CalculationOverflow)
            }),
            r.is_ok() ==> *final(self) == (TreasuryPool {
                total_claimed_rewards: (old(self).total_claimed_rewards + amount) as u64,
                ..*old(self)
            }),
            r.is_err() ==> *final(self) == *old(self),
    {
        self.total_claimed_rewards = add_u64(self.total_claimed_rewards, amount)?;
        Ok(())
    }


    /// Whether lending `amount` more keeps `total_borrowed` within 80% of
    /// `total_deposited`; without deposits there is no cap.
    pub open spec fn within_utilization_cap(self, amount: int) -> bool {
        self.total_deposited == 0 || (self.total_borrowed + amount) * 10000 <= (Self::MAX_UTILIZATION_BPS as int)
            * self.total_deposited
    }

    pub fn check_utilization_limit(&self, deployment_amount: u64) -> (r: Result<bool, ErrorCode>)
        ensures
            r == Ok::<bool, ErrorCode>(self.within_utilization_cap(deployment_amount as int)),
    {
        if self.total_deposited == 0 {
            return Ok(true);
        }
        let borrowed_after: u128 = (self.total_borrowed as u128) + (deployment_amount as u128);
        let used: u128 = borrowed_after * 10000;
        let cap: u128 = mul_wide(Self::MAX_UTILIZATION_BPS, self.total_deposited);
        Ok(used <= cap)
    }

    pub fn record_deployment_borrow(&mut self, amount: u64) -> (r: Result<(), ErrorCode>)
        ensures
            r == (if u64_fits(old(self).total_borrowed + amount) && old(self).active_deployment_count < u32::MAX {
                Ok::<(), ErrorCode>(())
            } else {
                Err::<(), ErrorCode>(ErrorCode::CalculationOverflow)
            }),
            r.is_ok() ==> *final(self) == (TreasuryPool {
                total_borrowed: (old(self).total_borrowed + amount) as u64,
                active_deployment_count: (old(self).active_deployment_count + 1) as u32,
                ..*old(self)
            }),
            r.is_err() ==> *final(self) == *old(self),
    {
        let borrowed = add_u64(self.total_borrowed, amount)?;
        if self.active_deployment_count == u32::MAX {
            return Err(ErrorCode::CalculationOverflow);
        }
        self.total_borrowed = borrowed;
        self.active_deployment_count = self.active_deployment_count + 1;
        Ok(())
    }

    /// The ledger after `recovered` lamports came back for a loan that still
    /// owed `remaining_debt`: the part up to the debt repays it and returns to
    /// the liquid balance.
    pub open spec fn debt_repayment_spec(self, recovered: u64, remaining_debt: u64) -> TreasuryPool {
        let debt = if recovered <= remaining_debt { recovered } else { remaining_debt };
        TreasuryPool {
            total_recovered: (self.total_recovered + recovered) as u64,
            total_debt_repaid: (self.total_debt_repaid + debt) as u64,
            total_borrowed: if debt <= self.total_borrowed { (self.total_borrowed - debt) as u64 } else { 0 },
            active_deployment_count: if self.active_deployment_count > 0 {
                (self.active_deployment_count - 1) as u32
            } else {
                0
            },
            liquid_balance: (self.liquid_balance + debt) as u64,
            ..self
        }
    }

    /// Splits a recovery into debt repayment and excess, and books it.
    /// Returns `(debt_repayment, excess_to_rewards)`.
    pub fn record_debt_repayment(&mut self, recovered_amount: u64, remaining_debt: u64) -> (r: Result<(u64, u64), ErrorCode>)
        ensures
            ({
                let debt = if recovered_amount <= remaining_debt { recovered_amount } else { remaining_debt };
                r == (if u64_fits(old(self).total_recovered + recovered_amount) && u64_fits(
                    old(self).total_debt_repaid + debt,
                ) && u64_fits(old(self).liquid_balance + debt) {
                    Ok::<(u64, u64), ErrorCode>((debt, (recovered_amount - debt) as u64))
                } else {
                    Err::<(u64, u64), ErrorCode>(ErrorCode::CalculationOverflow)
                })
            }),
            r.is_ok() ==> *final(self) == old(self).debt_repayment_spec(recovered_amount, remaining_debt),
            r.is_err() ==> *final(self) == *old(self),
    {
        let debt_repayment = if recovered_amount <= remaining_debt { recovered_amount } else { remaining_debt };
        let excess_to_rewards = recovered_amount - debt_repayment;
        let recovered = add_u64(self.total_recovered, recovered_amount)?;
        let repaid = add_u64(self.total_debt_repaid, debt_repayment)?;
        let liquid = add_u64(self.liquid_balance, debt_repayment)?;
        self.total_recovered = recovered;
        self.total_debt_repaid = repaid;
        self.total_borrowed = self.total_borrowed.saturating_sub(debt_repayment);
        self.active_deployment_count = self.active_deployment_count.saturating_sub(1);
        self.liquid_balance = liquid;
        Ok((debt_repayment, excess_to_rewards))
    }

    /// `num * 10000 / den` in basis points, capped at `u64::MAX`.
    pub open spec fn ratio_bps(num: int, den: int) -> int {
        if num * 10000 / den > u64::MAX {
            u64::MAX as int
        } else {
            num * 10000 / den
        }
    }

    /// Utilization `total_borrowed / total_deposited` in basis points; zero without deposits.
    pub open spec fn utilization_bps(self) -> int {
        if self.total_deposited == 0 {
            0
        } else {
            Self::ratio_bps(self.total_borrowed as int, self.total_deposited as int)
        }
    }

    /// Utilization in basis points (capped at `u64::MAX` when borrowing far exceeds deposits).
    pub fn get_utilization_bps(&self) -> (r: u64)
        ensures
            r == self.utilization_bps(),
    {
        if self.total_deposited == 0 {
            return 0;
        }
        ratio_bps_exec(self.total_borrowed, self.total_deposited)
    }

    /// Lifetime recovered over lifetime borrowed, in basis points; 10000 when nothing was borrowed.
    pub open spec fn recovery_ratio_bps(self) -> int {
        let ever = if self.total_borrowed + self.total_debt_repaid > u64::MAX {
            u64::MAX as int
        } else {
            self.total_borrowed + self.total_debt_repaid
        };
        if ever == 0 {
            10000
        } else {
            Self::ratio_bps(self.total_recovered as int, ever)
        }
    }

    pub fn get_recovery_ratio_bps(&self) -> (r: u64)
        ensures
            r == self.recovery_ratio_bps(),
    {
        let total_ever_borrowed = self.total_borrowed.saturating_add(self.total_debt_repaid);
        if total_ever_borrowed == 0 {
            return 10000;
        }
        ratio_bps_exec(self.total_recovered, total_ever_borrowed)
    }

    /// APY multiplier in basis points for the current utilization: from 1x to
    /// 1.5x below the target, from 1.5x to the maximum between the target and
    /// the cap, the maximum at or above the cap.
    pub open spec fn apy_multiplier(self) -> int {
        let u = self.utilization_bps();
        let target = self.target_utilization_bps as int;
        let cap = Self::MAX_UTILIZATION_BPS as int;
        if u >= cap {
            self.max_apy_multiplier_bps as int
        } else if u >= target {
            let range = cap - target;
            let spread = if self.max_apy_multiplier_bps >= 15000 { self.max_apy_multiplier_bps - 15000 } else { 0 };
            15000 + (u - target) * spread / range
        } else {
            10000 + u * 5000 / target
        }
    }

    pub open spec fn current_apy(self) -> int {
        if self.base_apy_bps == 0 {
            0
        } else {
            self.base_apy_bps * self.apy_multiplier() / 10000
        }
    }

    /// Advisory APY in basis points: the base APY scaled by the utilization multiplier.
    pub fn calculate_current_apy(&self) -> (r: Result<u64, ErrorCode>)
        ensures
            r == (if u64_fits(self.current_apy()) {
                Ok::<u64, ErrorCode>(self.current_apy() as u64)
            } else {
                Err::<u64, ErrorCode>(ErrorCode::CalculationOverflow)
            }),
    {
        if self.base_apy_bps == 0 {
            return Ok(0);
        }
        let utilization_bps = self.get_utilization_bps();
        let target = self.target_utilization_bps;
        let multiplier_bps: u64 = if utilization_bps >= Self::MAX_UTILIZATION_BPS {
            self.max_apy_multiplier_bps
        } else if utilization_bps >= target {
            let above: u64 = utilization_bps - target;
            let range: u64 = Self::MAX_UTILIZATION_BPS - target;
            let spread: u64 = self.max_apy_multiplier_bps.saturating_sub(15000);
            let product: u128 = mul_wide(above, spread);
            proof {
                assert(above * spread <= range * spread) by (nonlinear_arith)
                    requires
                        above < range,
                        spread >= 0,
                ;
                lemma_multiply_divide_le((above * spread) as int, range as int, spread as int);
            }
            let step: u128 = product / (range as u128);
            15000 + (step as u64)
        } else {
            let product: u128 = mul_wide(utilization_bps, 5000);
            proof {
                assert(utilization_bps * 5000 <= target * 5000) by (nonlinear_arith)
                    requires
                        utilization_bps < target,
                ;
                lemma_multiply_divide_le((utilization_bps * 5000) as int, target as int, 5000);
            }
            let step: u128 = product / (target as u128);
            10000 + (step as u64)
        };
        let apy: u128 = mul_wide(self.base_apy_bps, multiplier_bps) / 10000;
        if apy > u64::MAX as u128 {
            return Err(ErrorCode::CalculationOverflow);
        }
        Ok(apy as u64)
    }

    /// Appends a request of `amount` to the withdrawal queue and returns its position.
    pub fn add_to_withdrawal_queue(&mut self, amount: u64) -> (r: Result<u32, ErrorCode>)
        ensures
            r == (if old(self).withdrawal_queue_tail < u32::MAX && u64_fits(old(self).queued_withdrawal_amount + amount) {
                Ok::<u32, ErrorCode>(old(self).withdrawal_queue_tail)
            } else {
                Err::<u32, ErrorCode>(ErrorCode::CalculationOverflow)
            }),
            r.is_ok() ==> *final(self) == (TreasuryPool {
                withdrawal_queue_tail: (old(self).withdrawal_queue_tail + 1) as u32,
                queued_withdrawal_amount: (old(self).queued_withdrawal_amount + amount) as u64,
                ..*old(self)
            }),
            r.is_err() ==> *final(self) == *old(self),
    {
        let position = self.withdrawal_queue_tail;
        if position == u32::MAX {
            return Err(ErrorCode::CalculationOverflow);
        }
        let queued = add_u64(self.queued_withdrawal_amount, amount)?;
        self.withdrawal_queue_tail = position + 1;
        self.queued_withdrawal_amount = queued;
        Ok(position)
    }

    /// Takes `amount` off the queued total, stopping at zero.
    pub fn process_queued_withdrawal(&mut self, amount: u64) -> (r: Result<(), ErrorCode>)
        ensures
            r == Ok::<(), ErrorCode>(()),
            *final(self) == (TreasuryPool {
                queued_withdrawal_amount: if amount <= old(self).queued_withdrawal_amount {
                    (old(self).queued_withdrawal_amount - amount) as u64
                } else {
                    0
                },
                ..*old(self)
            }),
    {
        self.queued_withdrawal_amount = self.queued_withdrawal_amount.saturating_sub(amount);
        Ok(())
    }

    pub fn has_pending_withdrawals(&self) -> (r: bool)
        ensures
            r == (self.withdrawal_queue_tail > self.withdrawal_queue_head),
    {
        self.withdrawal_queue_tail > self.withdrawal_queue_head
    }

    pub fn get_pending_withdrawal_count(&self) -> (r: u32)
        ensures
            r == (if self.withdrawal_queue_tail >= self.withdrawal_queue_head {
                self.withdrawal_queue_tail - self.withdrawal_queue_head
            } else {
                0
            }),
    {
        self.withdrawal_queue_tail.saturating_sub(self.withdrawal_queue_head)
    }

    pub fn move_to_pending_rewards(&mut self, amount: u64) -> (r: Result<(), ErrorCode>)
        ensures
            r == (if u64_fits(old(self).pending_undistributed_rewards + amount) {
                Ok::<(), ErrorCode>(())
            } else {
                Err::<(), ErrorCode>(ErrorCode::CalculationOverflow)
            }),
            r.is_ok() ==> *final(self) == (TreasuryPool {
                pending_undistributed_rewards: (old(self).pending_undistributed_rewards + amount) as u64,
                ..*old(self)
            }),
            r.is_err() ==> *final(self) == *old(self),
    {
        self.pending_undistributed_rewards = add_u64(self.pending_undistributed_rewards, amount)?;
        Ok(())
    }

    /// The share of the held-back rewards released by `percentage_bps`.
    pub open spec fn distribution_amount(self, percentage_bps: u64) -> int {
        if self.pending_undistributed_rewards == 0 || self.total_deposited == 0 {
            0
        } else {
            self.pending_undistributed_rewards * percentage_bps / 10000
        }
    }

    /// The ledger after the held-back rewards have been partly released.
    pub open spec fn distribute_spec(self, percentage_bps: u64) -> TreasuryPool {
        let amount = self.distribution_amount(percentage_bps);
        if amount == 0 {
            self
        } else {
            TreasuryPool {
                reward_per_share: (self.reward_per_share + share_delta(amount, self.total_deposited as int)) as u128,
                pending_undistributed_rewards: (self.pending_undistributed_rewards - amount) as u64,
                ..self
            }
        }
    }

    /// Releases `percentage_bps` of the held-back rewards into the accumulator
    /// and returns the amount released (zero when nothing is held back or there are no deposits).
    pub fn distribute_pending_rewards(&mut self, percentage_bps: u64) -> (r: Result<u64, ErrorCode>)
        ensures
            r == (if old(self).pending_undistributed_rewards == 0 || old(self).total_deposited == 0 {
                Ok::<u64, ErrorCode>(0)
            } else if percentage_bps > 10000 {
                Err::<u64, ErrorCode>(ErrorCode::InvalidDistributionPercentage)
            } else if old(self).distribution_amount(percentage_bps) > 0 && !u128_fits(
                old(self).reward_per_share + share_delta(
                    old(self).distribution_amount(percentage_bps),
                    old(self).total_deposited as int,
                ),
            ) {
                Err::<u64, ErrorCode>(ErrorCode::CalculationOverflow)
            } else {
                Ok::<u64, ErrorCode>(old(self).distribution_amount(percentage_bps) as u64)
            }),
            r.is_ok() ==> *final(self) == old(self).distribute_spec(percentage_bps),
            r.is_err() ==> *final(self) == *old(self),
    {
        if self.pending_undistributed_rewards == 0 || self.total_deposited == 0 {
            return Ok(0);
        }
        if percentage_bps > 10000 {
            return Err(ErrorCode::InvalidDistributionPercentage);
        }
        let product: u128 = mul_wide(self.pending_undistributed_rewards, percentage_bps);
        proof {
            assert(self.pending_undistributed_rewards * percentage_bps <= self.pending_undistributed_rewards * 10000)
                by (nonlinear_arith)
                requires
                    percentage_bps <= 10000,
            ;
            lemma_multiply_divide_le(product as int, 10000, self.pending_undistributed_rewards as int);
        }
        let amount: u64 = (product / 10000) as u64;
        if amount == 0 {
            return Ok(0);
        }
        let delta = share_delta_exec(amount, self.total_deposited);
        let rps = add_u128(self.reward_per_share, delta)?;
        self.reward_per_share = rps;
        self.pending_undistributed_rewards = self.pending_undistributed_rewards - amount;
        Ok(amount)
    }

    pub fn update_stake_duration_weight(&mut self, weight_delta: u128) -> (r: Result<(), ErrorCode>)
        ensures
            r == (if u128_fits(old(self).total_stake_duration_weight + weight_delta) {
                Ok::<(), ErrorCode>(())
            } else {
                Err::<(), ErrorCode>(ErrorCode::CalculationOverflow)
            }),
            r.is_ok() ==> *final(self) == (TreasuryPool {
                total_stake_duration_weight: (old(self).total_stake_duration_weight + weight_delta) as u128,
                ..*old(self)
            }),
            r.is_err() ==> *final(self) == *old(self),
    {
        self.total_stake_duration_weight = add_u128(self.total_stake_duration_weight, weight_delta)?;
        Ok(())
    }

    /// A staker's duration-weighted share of the held-back rewards.
    pub open spec fn duration_bonus(self, staker_weight: int) -> int {
        if self.total_stake_duration_weight == 0 || self.pending_undistributed_rewards == 0 {
            0
        } else {
            self.pending_undistributed_rewards * staker_weight / (self.total_stake_duration_weight as int)
        }
    }

    pub fn calculate_duration_bonus(&self, staker_weight: u128) -> (r: Result<u64, ErrorCode>)
        ensures
            r == (if self.total_stake_duration_weight == 0 || self.pending_undistributed_rewards == 0 {
                Ok::<u64, ErrorCode>(0)
            } else if u128_fits(self.pending_undistributed_rewards * staker_weight) && u64_fits(
                self.duration_bonus(staker_weight as int),
            ) {
                Ok::<u64, ErrorCode>(self.duration_bonus(staker_weight as int) as u64)
            } else {
                Err::<u64, ErrorCode>(ErrorCode::CalculationOverflow)
            }),
    {
        if self.total_stake_duration_weight == 0 || self.pending_undistributed_rewards == 0 {
            return Ok(0);
        }
        let product = match (self.pending_undistributed_rewards as u128).checked_mul(staker_weight) {
            Some(v) => v,
            None => return Err(ErrorCode::CalculationOverflow),
        };
        let bonus: u128 = product / self.total_stake_duration_weight;
        if bonus > u64::MAX as u128 {
            return Err(ErrorCode::CalculationOverflow);
        }
        Ok(bonus as u64)
    }

    /// Rewards accrued by a position with the given principal and snapshot,
    /// clamped at zero when the snapshot exceeds the accumulated amount.
    pub fn calculate_claimable_rewards(&self, deposited_amount: u64, reward_debt: u128) -> (r: Result<u64, ErrorCode>)
        ensures
            r == (if u128_fits(deposited_amount * self.reward_per_share)
                && u64_fits(accrued(deposited_amount as int, self.reward_per_share as int, reward_debt as int)) {
                Ok::<u64, ErrorCode>(accrued(deposited_amount as int, self.reward_per_share as int, reward_debt as int) as u64)
            } else {
                Err::<u64, ErrorCode>(ErrorCode::CalculationOverflow)
            }),
    {
        accrued_exec(deposited_amount, self.reward_per_share, reward_debt)
    }

    /// Same as `calculate_claimable_rewards`, but a snapshot above the
    /// accumulated amount is reported as corrupt data instead of clamped.
    pub fn calculate_claimable_rewards_safe(&self, deposited_amount: u64, reward_debt: u128) -> (r: Result<u64, ErrorCode>)
        ensures
            r == (if !u128_fits(deposited_amount * self.reward_per_share) {
                Err::<u64, ErrorCode>(ErrorCode::CalculationOverflow)
            } else if reward_debt > deposited_amount * self.reward_per_share {
                Err::<u64, ErrorCode>(ErrorCode::RewardDebtExceedsAccumulated)
            } else if u64_fits(accrued(deposited_amount as int, self.reward_per_share as int, reward_debt as int)) {
                Ok::<u64, ErrorCode>(accrued(deposited_amount as int, self.reward_per_share as int, reward_debt as int) as u64)
            } else {
                Err::<u64, ErrorCode>(ErrorCode::CalculationOverflow)
            }),
    {
        let acc = accumulated_exec(deposited_amount, self.reward_per_share)?;
        if reward_debt > acc {
            return Err(ErrorCode::RewardDebtExceedsAccumulated);
        }
        accrued_exec(deposited_amount, self.reward_per_share, reward_debt)
    }
}

} // verus!
