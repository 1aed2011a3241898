use vstd::prelude::*;

use crate::pubkey::Pubkey;

verus! {

/// A staker's withdrawal request waiting for liquidity. Entries are keyed by
/// `position`, a counter that only grows.
#[derive(Clone, Copy, Debug)]
pub struct WithdrawalQueueEntry {
    pub position: u32,
    pub staker: Pubkey,
    pub amount: u64,
    pub queued_at: i64,
    /// Set once the entry is fully paid out or cancelled.
    pub processed: bool,
    pub amount_withdrawn: u64,
    pub processed_at: i64,
    pub bump: u8,
}

impl WithdrawalQueueEntry {
    /// A new, unpaid entry.
    pub fn new(position: u32, staker: Pubkey, amount: u64, queued_at: i64, bump: u8) -> (r: WithdrawalQueueEntry)
        ensures
            r == (WithdrawalQueueEntry {
                position,
                staker,
                amount,
                queued_at,
                processed: false,
                amount_withdrawn: 0,
                processed_at: 0,
                bump,
            }),
    {
        WithdrawalQueueEntry { position, staker, amount, queued_at, processed: false, amount_withdrawn: 0, processed_at: 0, bump }
    }

    /// An entry never records more paid out than was asked.
    pub open spec fn wf(self) -> bool {
        self.amount_withdrawn <= self.amount
    }

    pub open spec fn is_pending_spec(self) -> bool {
        !self.processed && self.amount > self.amount_withdrawn
    }

    pub open spec fn remaining(self) -> int {
        if self.amount >= self.amount_withdrawn {
            self.amount - self.amount_withdrawn
        } else {
            0
        }
    }

    /// What one payout of at most `available_amount` pays.
    pub open spec fn payout(self, available_amount: u64) -> int {
        if available_amount <= self.remaining() {
            available_amount as int
        } else {
            self.remaining()
        }
    }

    /// The entry after a payout of at most `available_amount`; it is marked
    /// processed once fully paid.
    pub open spec fn process_spec(self, available_amount: u64, current_time: i64) -> WithdrawalQueueEntry {
        let withdrawn = (self.amount_withdrawn + self.payout(available_amount)) as u64;
        if withdrawn >= self.amount {
            WithdrawalQueueEntry {
                amount_withdrawn: withdrawn,
                processed: true,
                processed_at: current_time,
                ..self
            }
        } else {
            WithdrawalQueueEntry { amount_withdrawn: withdrawn, ..self }
        }
    }

    pub fn is_pending(&self) -> (r: bool)
        ensures
            r == self.is_pending_spec(),
    {
        !self.processed && self.amount > self.amount_withdrawn
    }

    pub fn get_remaining_amount(&self) -> (r: u64)
        ensures
            r == self.remaining(),
    {
        self.amount.saturating_sub(self.amount_withdrawn)
    }

    /// Pays out up to `available_amount` of what remains and returns the amount paid.
    pub fn process_withdrawal(&mut self, available_amount: u64, current_time: i64) -> (r: u64)
        ensures
            r == old(self).payout(available_amount),
            *final(self) == old(self).process_spec(available_amount, current_time),
    {
        let remaining = self.get_remaining_amount();
        let to_process = if available_amount <= remaining { available_amount } else { remaining };
        self.amount_withdrawn = self.amount_withdrawn + to_process;
        if self.amount_withdrawn >= self.amount {
            self.processed = true;
            self.processed_at = current_time;
        }
        to_process
    }

    /// Closes the entry without paying anything.
    pub fn cancel(&mut self, current_time: i64)
        ensures
            *final(self) == (WithdrawalQueueEntry { processed: true, processed_at: current_time, ..*old(self) }),
    {
        self.processed = true;
        self.processed_at = current_time;
    }

    /// Share of the request paid so far, in percent (100 for an empty request,
    /// capped at 255).
    pub fn get_completion_percentage(&self) -> (r: u8)
        ensures
            r == (if self.amount == 0 {
                100
            } else if self.amount_withdrawn * 100 / self.amount as int > 255 {
                255
            } else {
                self.amount_withdrawn * 100 / self.amount as int
            }),
    {
        if self.amount == 0 {
            return 100;
        }
        let pct: u128 = (self.amount_withdrawn as u128) * 100 / (self.amount as u128);
        if pct > 255 {
            255
        } else {
            pct as u8
        }
    }

    /// Expected seconds until the rest is paid at `recovery_rate_per_day`
    /// lamports a day (`i64::MAX` when the rate is zero).
    pub fn estimate_wait_time(&self, recovery_rate_per_day: u64) -> (r: i64)
        ensures
            r == (if recovery_rate_per_day == 0 {
                i64::MAX as int
            } else if self.remaining() * 86400 / recovery_rate_per_day as int > i64::MAX {
                i64::MAX as int
            } else {
                self.remaining() * 86400 / recovery_rate_per_day as int
            }),
    {
        if recovery_rate_per_day == 0 {
            return i64::MAX;
        }
        let remaining = self.get_remaining_amount();
        let wait: u128 = (remaining as u128) * 86400 / (recovery_rate_per_day as u128);
        if wait > i64::MAX as u128 {
            i64::MAX
        } else {
            wait as i64
        }
    }
}

} // verus!
