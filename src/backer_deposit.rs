use vstd::prelude::*;

use crate::errors::ErrorCode;
use crate::pubkey::Pubkey;
use crate::treasury_pool::{accrued, accrued_exec, accumulated_exec, add_u128, add_u64, mul_wide, u128_fits, u64_fits};

verus! {

/// A staker's position: principal, the reward snapshot, settled rewards,
/// the duration weight and at most one queued withdrawal.
#[derive(Clone, Copy, Debug)]
pub struct BackerDeposit {
    pub backer: Pubkey,
    pub deposited_amount: u64,
    /// `deposited_amount * reward_per_share` at the last settlement.
    pub reward_debt: u128,
    /// Settled rewards that have not been claimed yet.
    pub pending_rewards: u64,
    pub claimed_total: u64,
    pub is_active: bool,
    pub bump: u8,
    pub first_deposit_at: i64,
    pub last_action_at: i64,
    /// Principal times seconds, accumulated between actions.
    pub stake_duration_weight: u128,
    pub queued_withdrawal: u64,
    pub queue_position: u32,
    pub queued_at: i64,
}

/// The name stakers' positions went by at first.
pub type LenderStake = BackerDeposit;

/// Seconds from `from` to `to`, or zero when `to` is not later.
pub open spec fn elapsed(from: int, to: int) -> int {
    if to > from {
        to - from
    } else {
        0
    }
}

impl BackerDeposit {
    /// A fresh position of `backer` with nothing deposited.
    pub fn new(backer: Pubkey, bump: u8, current_time: i64) -> (r: BackerDeposit)
        ensures
            r == Self::fresh(backer, bump, current_time),
    {
        BackerDeposit {
            backer,
            deposited_amount: 0,
            reward_debt: 0,
            pending_rewards: 0,
            claimed_total: 0,
            is_active: true,
            bump,
            first_deposit_at: current_time,
            last_action_at: current_time,
            stake_duration_weight: 0,
            queued_withdrawal: 0,
            queue_position: 0,
            queued_at: 0,
        }
    }

    pub open spec fn fresh(backer: Pubkey, bump: u8, current_time: i64) -> BackerDeposit {
        BackerDeposit {
            backer,
            deposited_amount: 0,
            reward_debt: 0,
            pending_rewards: 0,
            claimed_total: 0,
            is_active: true,
            bump,
            first_deposit_at: current_time,
            last_action_at: current_time,
            stake_duration_weight: 0,
            queued_withdrawal: 0,
            queue_position: 0,
            queued_at: 0,
        }
    }

    /// A position's standing invariant: it is active while it holds
    /// principal, an empty one keeps no snapshot, and a queued withdrawal
    /// never exceeds the principal.
    pub open spec fn wf(self) -> bool {
        &&& self.deposited_amount > 0 ==> self.is_active
        &&& self.deposited_amount == 0 ==> self.reward_debt == 0
        &&& self.queued_withdrawal <= self.deposited_amount
    }

    /// Rewards accrued since the last settlement at accumulator value `rps`.
    pub open spec fn unsettled(self, rps: u128) -> int {
        accrued(self.deposited_amount as int, rps as int, self.reward_debt as int)
    }

    /// Settled plus unsettled rewards.
    pub open spec fn claimable(self, rps: u128) -> int {
        self.pending_rewards + self.unsettled(rps)
    }

    /// Whether settling at `rps` stays within the integer widths.
    pub open spec fn settle_fits(self, rps: u128) -> bool {
        u128_fits(self.deposited_amount * rps) && u64_fits(self.claimable(rps))
    }

    /// The position after settling at `rps`: accrued rewards join the settled
    /// ones and the snapshot moves to the current accumulator.
    pub open spec fn settle_spec(self, rps: u128) -> BackerDeposit {
        BackerDeposit {
            pending_rewards: self.claimable(rps) as u64,
            reward_debt: (self.deposited_amount * rps) as u128,
            ..self
        }
    }

    /// Settled plus newly accrued rewards.
    pub fn calculate_claimable_rewards(&self, reward_per_share: u128) -> (r: Result<u64, ErrorCode>)
        ensures
            r == (if self.settle_fits(reward_per_share) {
                Ok::<u64, ErrorCode>(self.claimable(reward_per_share) as u64)
            } else {
                Err::<u64, ErrorCode>(ErrorCode::CalculationOverflow)
            }),
    {
        let fresh = accrued_exec(self.deposited_amount, reward_per_share, self.reward_debt)?;
        add_u64(self.pending_rewards, fresh)
    }

    /// Moves accrued rewards into `pending_rewards` and takes a new snapshot.
    /// Must run before any change of `deposited_amount`.
    pub fn settle_pending_rewards(&mut self, reward_per_share: u128) -> (r: Result<(), ErrorCode>)
        ensures
            r == (if old(self).settle_fits(reward_per_share) {
                Ok::<(), ErrorCode>(())
            } else {
                Err::<(), ErrorCode>(ErrorCode::CalculationOverflow)
            }),
            r.is_ok() ==> *final(self) == old(self).settle_spec(reward_per_share),
            r.is_err() ==> *final(self) == *old(self),
    {
        let acc = accumulated_exec(self.deposited_amount, reward_per_share)?;
        let total = self.calculate_claimable_rewards(reward_per_share)?;
        self.pending_rewards = total;
        self.reward_debt = acc;
        Ok(())
    }

    /// Sets the snapshot to `deposited_amount * reward_per_share`.
    pub fn update_reward_debt(&mut self, reward_per_share: u128) -> (r: Result<(), ErrorCode>)
        ensures
            r == (if u128_fits(old(self).deposited_amount * reward_per_share) {
                Ok::<(), ErrorCode>(())
            } else {
                Err::<(), ErrorCode>(ErrorCode::CalculationOverflow)
            }),
            r.is_ok() ==> *final(self) == (BackerDeposit {
                reward_debt: (old(self).deposited_amount * reward_per_share) as u128,
                ..*old(self)
            }),
            r.is_err() ==> *final(self) == *old(self),
    {
        self.reward_debt = accumulated_exec(self.deposited_amount, reward_per_share)?;
        Ok(())
    }

    /// Weight earned since the last action: principal times elapsed seconds.
    pub open spec fn weight_delta(self, current_time: int) -> int {
        self.deposited_amount * elapsed(self.last_action_at as int, current_time)
    }

    pub open spec fn duration_fits(self, current_time: int) -> bool {
        u128_fits(self.stake_duration_weight + self.weight_delta(current_time))
    }

    pub open spec fn duration_spec(self, current_time: i64) -> BackerDeposit {
        BackerDeposit {
            stake_duration_weight: (self.stake_duration_weight + self.weight_delta(current_time as int)) as u128,
            last_action_at: if current_time > self.last_action_at { current_time } else { self.last_action_at },
            ..self
        }
    }

    /// Accrues principal times elapsed seconds into the duration weight and
    /// returns the weight added.
    pub fn update_duration_weight(&mut self, current_time: i64) -> (r: Result<u128, ErrorCode>)
        ensures
            r == (if old(self).duration_fits(current_time as int) {
                Ok::<u128, ErrorCode>(old(self).weight_delta(current_time as int) as u128)
            } else {
                Err::<u128, ErrorCode>(ErrorCode::CalculationOverflow)
            }),
            r.is_ok() ==> *final(self) == old(self).duration_spec(current_time),
            r.is_err() ==> *final(self) == *old(self),
    {
        let (secs, last): (u64, i64) = if current_time > self.last_action_at {
            (((current_time as i128) - (self.last_action_at as i128)) as u64, current_time)
        } else {
            (0, self.last_action_at)
        };
        let delta: u128 = mul_wide(self.deposited_amount, secs);
        let weight = add_u128(self.stake_duration_weight, delta)?;
        self.stake_duration_weight = weight;
        self.last_action_at = last;
        Ok(delta)
    }

    /// Clears the duration weight and restarts it from `current_time`.
    pub fn reset_duration_weight(&mut self, current_time: i64)
        ensures
            *final(self) == (BackerDeposit { stake_duration_weight: 0, last_action_at: current_time, ..*old(self) }),
    {
        self.stake_duration_weight = 0;
        self.last_action_at = current_time;
    }

    pub fn has_queued_withdrawal(&self) -> (r: bool)
        ensures
            r == (self.queued_withdrawal > 0),
    {
        self.queued_withdrawal > 0
    }

    /// Records a queued withdrawal of `amount` at queue `position`.
    pub fn queue_withdrawal(&mut self, amount: u64, position: u32, current_time: i64) -> (r: Result<(), ErrorCode>)
        ensures
            r == (if old(self).queued_withdrawal > 0 {
                Err::<(), ErrorCode>(ErrorCode::WithdrawalAlreadyQueued)
            } else if amount == 0 {
                Err::<(), ErrorCode>(ErrorCode::InvalidAmount)
            } else if amount > old(self).deposited_amount {
                Err::<(), ErrorCode>(ErrorCode::InsufficientStake)
            } else {
                Ok(())
            }),
            r.is_ok() ==> *final(self) == (BackerDeposit {
                queued_withdrawal: amount,
                queue_position: position,
                queued_at: current_time,
                ..*old(self)
            }),
            r.is_err() ==> *final(self) == *old(self),
    {
        if self.queued_withdrawal > 0 {
            return Err(ErrorCode::WithdrawalAlreadyQueued);
        }
        if amount == 0 {
            return Err(ErrorCode::InvalidAmount);
        }
        if amount > self.deposited_amount {
            return Err(ErrorCode::InsufficientStake);
        }
        self.queued_withdrawal = amount;
        self.queue_position = position;
        self.queued_at = current_time;
        Ok(())
    }

    /// Drops the queued withdrawal and returns the amount that was queued.
    pub fn cancel_queued_withdrawal(&mut self) -> (r: Result<u64, ErrorCode>)
        ensures
            r == (if old(self).queued_withdrawal == 0 {
                Err::<u64, ErrorCode>(ErrorCode::NoQueuedWithdrawal)
            } else {
                Ok(old(self).queued_withdrawal)
            }),
            r.is_ok() ==> *final(self) == (BackerDeposit { queued_withdrawal: 0, queued_at: 0, ..*old(self) }),
            r.is_err() ==> *final(self) == *old(self),
    {
        if self.queued_withdrawal == 0 {
            return Err(ErrorCode::NoQueuedWithdrawal);
        }
        let amount = self.queued_withdrawal;
        self.queued_withdrawal = 0;
        self.queued_at = 0;
        Ok(amount)
    }

    /// Takes a paid-out part off the queued withdrawal, stopping at zero.
    pub fn process_queued_withdrawal(&mut self, processed_amount: u64) -> (r: Result<(), ErrorCode>)
        ensures
            r == Ok::<(), ErrorCode>(()),
            *final(self) == (BackerDeposit {
                queued_withdrawal: if processed_amount <= old(self).queued_withdrawal {
                    (old(self).queued_withdrawal - processed_amount) as u64
                } else {
                    0
                },
                ..*old(self)
            }),
    {
        self.queued_withdrawal = self.queued_withdrawal.saturating_sub(processed_amount);
        Ok(())
    }
}

} // verus!
