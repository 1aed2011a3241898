use vstd::prelude::*;

use crate::pubkey::Pubkey;

verus! {

/// The pool a privileged withdrawal draws from.
#[derive(Clone, Copy, Debug, PartialEq, Eq, Structural)]
pub enum WithdrawalType {
    PlatformPool,
    RewardPool,
}

/// The single in-flight privileged withdrawal, executable after a delay and
/// vetoable by the guardian until then.
#[derive(Clone, Debug)]
pub struct PendingWithdrawal {
    pub withdrawal_type: WithdrawalType,
    pub amount: u64,
    pub destination: Pubkey,
    pub initiator: Pubkey,
    pub initiated_at: i64,
    pub execute_after: i64,
    pub expires_at: i64,
    pub reason: String,
    pub executed: bool,
    pub vetoed: bool,
    pub bump: u8,
}

impl PendingWithdrawal {
    pub const DEFAULT_TIMELOCK_DURATION: i64 = 86400;
    pub const MIN_TIMELOCK_DURATION: i64 = 3600;
    pub const MAX_TIMELOCK_DURATION: i64 = 604800;
    /// How long a withdrawal stays executable once its delay has passed.
    pub const VALIDITY_PERIOD: i64 = 604800;

    pub open spec fn can_execute_spec(&self, current_time: int) -> bool {
        !self.executed && !self.vetoed && current_time >= self.execute_after
    }

    pub open spec fn can_veto_spec(&self, current_time: int) -> bool {
        !self.executed && !self.vetoed && current_time < self.execute_after
    }

    pub fn can_execute(&self, current_time: i64) -> (r: bool)
        ensures
            r == self.can_execute_spec(current_time as int),
    {
        !self.executed && !self.vetoed && current_time >= self.execute_after
    }

    pub fn is_expired(&self, current_time: i64) -> (r: bool)
        ensures
            r == (current_time > self.expires_at),
    {
        current_time > self.expires_at
    }

    pub fn can_veto(&self, current_time: i64) -> (r: bool)
        ensures
            r == self.can_veto_spec(current_time as int),
    {
        !self.executed && !self.vetoed && current_time < self.execute_after
    }
}

} // verus!
