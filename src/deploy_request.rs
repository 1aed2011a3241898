use vstd::prelude::*;

use crate::errors::ErrorCode;
use crate::pubkey::Pubkey;
use crate::treasury_pool::{add_u64, mul_wide, u64_fits};

verus! {

/// Where a deployment loan stands in its lifecycle.
#[derive(Clone, Copy, Debug, PartialEq, Eq, Structural)]
pub enum DeployRequestStatus {
    /// Paid for, waiting for the deployment.
    PendingDeployment,
    /// Deployed with a valid subscription.
    Active,
    SubscriptionExpired,
    /// Expired, in the window before the program is closed.
    InGracePeriod,
    Suspended,
    Failed,
    Cancelled,
    /// Program closed and its lamports recovered.
    Closed,
}

/// One deployment loan: what was borrowed, the subscription schedule, debt
/// repayment progress and status.
#[derive(Clone, Copy, Debug)]
pub struct DeployRequest {
    pub request_id: [u8; 32],
    pub developer: Pubkey,
    pub program_hash: [u8; 32],
    pub service_fee: u64,
    pub monthly_fee: u64,
    pub deployment_cost: u64,
    pub borrowed_amount: u64,
    pub subscription_paid_until: i64,
    /// One-time funding destination; must be set before a confirmation.
    pub ephemeral_key: Option<Pubkey>,
    pub deployed_program_id: Option<Pubkey>,
    pub status: DeployRequestStatus,
    pub created_at: i64,
    pub bump: u8,
    pub grace_period_days: u8,
    /// End of the grace period, zero outside one.
    pub grace_period_end: i64,
    pub total_subscribed_months: u32,
    pub auto_renewal_enabled: bool,
    pub last_renewal_at: i64,
    pub auto_renewal_failed_count: u8,
    pub repaid_amount: u64,
    pub expected_rent_recovery: u64,
    pub actual_rent_recovered: u64,
    /// `actual_rent_recovered * 10000 / borrowed_amount`.
    pub recovery_ratio_bps: u64,
    /// When the debt was fully repaid, zero until then.
    pub debt_repaid_at: i64,
}

impl DeployRequest {
    pub const SECONDS_PER_DAY: i64 = 86400;
    pub const SECONDS_PER_MONTH: i64 = 2592000;
    /// Longest extension accepted at once (ten years).
    pub const MAX_EXTENSION_MONTHS: u32 = 120;

    pub fn is_subscription_valid(&self, current_time: i64) -> (r: bool)
        ensures
            r == (current_time <= self.subscription_paid_until),
    {
        current_time <= self.subscription_paid_until
    }

    /// The failure of `extend_subscription`, if any.
    pub open spec fn extend_error(self, months: u32) -> Option<ErrorCode> {
        if months > Self::MAX_EXTENSION_MONTHS {
            Some(ErrorCode::SubscriptionExtensionTooLarge)
        } else if self.subscription_paid_until + months * Self::SECONDS_PER_MONTH > i64::MAX {
            Some(ErrorCode::SubscriptionExtensionOverflow)
        } else {
            None
        }
    }

    /// The request after `months` more months were paid at `current_time`.
    pub open spec fn extend_spec(self, months: u32, current_time: i64) -> DeployRequest {
        DeployRequest {
            subscription_paid_until: (self.subscription_paid_until + months * Self::SECONDS_PER_MONTH) as i64,
            total_subscribed_months: if self.total_subscribed_months + months > u32::MAX {
                u32::MAX
            } else {
                (self.total_subscribed_months + months) as u32
            },
            last_renewal_at: current_time,
            auto_renewal_failed_count: 0,
            status: if self.status == DeployRequestStatus::InGracePeriod {
                DeployRequestStatus::Active
            } else {
                self.status
            },
            grace_period_end: if self.status == DeployRequestStatus::InGracePeriod {
                0
            } else {
                self.grace_period_end
            },
            ..self
        }
    }

    /// Extends the paid period by `months` thirty-day months; leaves a grace period.
    pub fn extend_subscription(&mut self, months: u32, current_time: i64) -> (r: Result<(), ErrorCode>)
        ensures
            r == (match old(self).extend_error(months) {
                Some(e) => Err::<(), ErrorCode>(e),
                None => Ok(()),
            }),
            r.is_ok() ==> *final(self) == old(self).extend_spec(months, current_time),
            r.is_err() ==> *final(self) == *old(self),
    {
        if months > Self::MAX_EXTENSION_MONTHS {
            return Err(ErrorCode::SubscriptionExtensionTooLarge);
        }
        let extension_seconds: i64 = (months as i64) * Self::SECONDS_PER_MONTH;
        let paid_until = match self.subscription_paid_until.checked_add(extension_seconds) {
            Some(v) => v,
            None => return Err(ErrorCode::SubscriptionExtensionOverflow),
        };
        self.subscription_paid_until = paid_until;
        self.total_subscribed_months = self.total_subscribed_months.saturating_add(months);
        self.last_renewal_at = current_time;
        self.auto_renewal_failed_count = 0;
        if self.status == DeployRequestStatus::InGracePeriod {
            self.status = DeployRequestStatus::Active;
            self.grace_period_end = 0;
        }
        Ok(())
    }

    /// Grace days earned by the subscription history: 3 below three months,
    /// 5 below six, 7 from six on.
    pub open spec fn grace_days(self) -> u8 {
        if self.total_subscribed_months >= 6 {
            7
        } else if self.total_subscribed_months >= 3 {
            5
        } else {
            3
        }
    }

    pub fn calculate_grace_period_days(&self) -> (r: u8)
        ensures
            r == self.grace_days(),
    {
        if self.total_subscribed_months >= 6 {
            7
        } else if self.total_subscribed_months >= 3 {
            5
        } else {
            3
        }
    }

    /// Opens the grace period at `current_time`.
    pub fn start_grace_period(&mut self, current_time: i64) -> (r: Result<(), ErrorCode>)
        ensures
            r == (if current_time + old(self).grace_days() * Self::SECONDS_PER_DAY > i64::MAX {
                Err::<(), ErrorCode>(ErrorCode::CalculationOverflow)
            } else {
                Ok(())
            }),
            r.is_ok() ==> *final(self) == (DeployRequest {
                grace_period_days: old(self).grace_days(),
                grace_period_end: (current_time + old(self).grace_days() * Self::SECONDS_PER_DAY) as i64,
                status: DeployRequestStatus::InGracePeriod,
                ..*old(self)
            }),
            r.is_err() ==> *final(self) == *old(self),
    {
        let days = self.calculate_grace_period_days();
        let end = match current_time.checked_add((days as i64) * Self::SECONDS_PER_DAY) {
            Some(v) => v,
            None => return Err(ErrorCode::CalculationOverflow),
        };
        self.grace_period_days = days;
        self.grace_period_end = end;
        self.status = DeployRequestStatus::InGracePeriod;
        Ok(())
    }

    pub fn is_grace_period_expired(&self, current_time: i64) -> (r: bool)
        ensures
            r == (self.status == DeployRequestStatus::InGracePeriod && current_time > self.grace_period_end),
    {
        if self.status != DeployRequestStatus::InGracePeriod {
            return false;
        }
        current_time > self.grace_period_end
    }

    pub fn is_in_grace_period(&self) -> (r: bool)
        ensures
            r == (self.status == DeployRequestStatus::InGracePeriod && self.grace_period_end > 0),
    {
        self.status == DeployRequestStatus::InGracePeriod && self.grace_period_end > 0
    }

    pub fn increment_auto_renewal_failed(&mut self)
        ensures
            *final(self) == (DeployRequest {
                auto_renewal_failed_count: if old(self).auto_renewal_failed_count < u8::MAX {
                    (old(self).auto_renewal_failed_count + 1) as u8
                } else {
                    u8::MAX
                },
                ..*old(self)
            }),
    {
        self.auto_renewal_failed_count = self.auto_renewal_failed_count.saturating_add(1);
    }

    /// The 1% monthly fee on the borrowed amount.
    pub fn calculate_monthly_borrow_fee(&self) -> (r: Result<u64, ErrorCode>)
        ensures
            r == Ok::<u64, ErrorCode>((self.borrowed_amount * 100 / 10000) as u64),
    {
        let fee: u128 = mul_wide(self.borrowed_amount, 100) / 10000;
        Ok(fee as u64)
    }

    /// Months started since creation, rounded up (zero before creation).
    pub open spec fn months_elapsed(self, current_time: int) -> int {
        if current_time > self.created_at {
            (current_time - self.created_at + Self::SECONDS_PER_MONTH - 1) / (Self::SECONDS_PER_MONTH as int)
        } else {
            0
        }
    }

    /// The monthly borrow fee for every month started since creation.
    pub fn calculate_total_borrow_fees(&self, current_time: i64) -> (r: Result<u64, ErrorCode>)
        ensures
            r == (if u64_fits((self.borrowed_amount * 100 / 10000) * self.months_elapsed(current_time as int)) {
                Ok::<u64, ErrorCode>(((self.borrowed_amount * 100 / 10000) * self.months_elapsed(current_time as int)) as u64)
            } else {
                Err::<u64, ErrorCode>(ErrorCode::CalculationOverflow)
            }),
    {
        let months: u64 = if current_time > self.created_at {
            let secs: u128 = ((current_time as i128) - (self.created_at as i128)) as u128;
            ((secs + 2592000 - 1) / 2592000) as u64
        } else {
            0
        };
        let monthly = self.calculate_monthly_borrow_fee()?;
        match monthly.checked_mul(months) {
            Some(v) => Ok(v),
            None => Err(ErrorCode::CalculationOverflow),
        }
    }

    pub open spec fn remaining_debt(self) -> int {
        if self.repaid_amount <= self.borrowed_amount {
            self.borrowed_amount - self.repaid_amount
        } else {
            0
        }
    }

    pub fn get_remaining_debt(&self) -> (r: u64)
        ensures
            r == self.remaining_debt(),
    {
        self.borrowed_amount.saturating_sub(self.repaid_amount)
    }

    pub fn is_debt_repaid(&self) -> (r: bool)
        ensures
            r == (self.repaid_amount >= self.borrowed_amount),
    {
        self.repaid_amount >= self.borrowed_amount
    }

    /// The part of a recovery that repays debt.
    pub open spec fn debt_part(self, recovered: u64) -> int {
        if recovered <= self.remaining_debt() {
            recovered as int
        } else {
            self.remaining_debt()
        }
    }

    /// The request after `recovered` lamports of rent came back at `current_time`.
    pub open spec fn rent_recovery_spec(self, recovered: u64, current_time: i64) -> DeployRequest {
        let repaid = self.repaid_amount + self.debt_part(recovered);
        let actual = self.actual_rent_recovered + recovered;
        DeployRequest {
            repaid_amount: repaid as u64,
            actual_rent_recovered: actual as u64,
            recovery_ratio_bps: if self.borrowed_amount > 0 {
                (actual * 10000 / (self.borrowed_amount as int)) as u64
            } else {
                self.recovery_ratio_bps
            },
            debt_repaid_at: if repaid >= self.borrowed_amount && self.debt_repaid_at == 0 {
                current_time
            } else {
                self.debt_repaid_at
            },
            ..self
        }
    }

    /// Books recovered rent against the debt. Returns `(debt_repayment, excess_to_rewards)`.
    pub fn record_rent_recovery(&mut self, recovered_amount: u64, current_time: i64) -> (r: Result<(u64, u64), ErrorCode>)
        ensures
            r == (if u64_fits(old(self).repaid_amount + old(self).debt_part(recovered_amount)) && u64_fits(
                old(self).actual_rent_recovered + recovered_amount,
            ) && (old(self).borrowed_amount > 0 ==> u64_fits(
                (old(self).actual_rent_recovered + recovered_amount) * 10000 / (old(self).borrowed_amount as int),
            )) {
                Ok::<(u64, u64), ErrorCode>(
                    (
                        old(self).debt_part(recovered_amount) as u64,
                        (recovered_amount - old(self).debt_part(recovered_amount)) as u64,
                    ),
                )
            } else {
                Err::<(u64, u64), ErrorCode>(ErrorCode::CalculationOverflow)
            }),
            r.is_ok() ==> *final(self) == old(self).rent_recovery_spec(recovered_amount, current_time),
            r.is_err() ==> *final(self) == *old(self),
    {
        let remaining_debt = self.get_remaining_debt();
        let debt_repayment = if recovered_amount <= remaining_debt { recovered_amount } else { remaining_debt };
        let excess_to_rewards = recovered_amount - debt_repayment;
        let repaid = add_u64(self.repaid_amount, debt_repayment)?;
        let actual = add_u64(self.actual_rent_recovered, recovered_amount)?;
        let mut ratio = self.recovery_ratio_bps;
        if self.borrowed_amount > 0 {
            let q: u128 = mul_wide(actual, 10000) / (self.borrowed_amount as u128);
            if q > u64::MAX as u128 {
                return Err(ErrorCode::CalculationOverflow);
            }
            ratio = q as u64;
        }
        self.repaid_amount = repaid;
        self.actual_rent_recovered = actual;
        self.recovery_ratio_bps = ratio;
        if self.repaid_amount >= self.borrowed_amount && self.debt_repaid_at == 0 {
            self.debt_repaid_at = current_time;
        }
        Ok((debt_repayment, excess_to_rewards))
    }

    /// Records that about 80% of the deployment cost is expected back as rent.
    pub fn set_expected_rent_recovery(&mut self, deployment_cost: u64)
        ensures
            *final(self) == (DeployRequest {
                expected_rent_recovery: (deployment_cost * 80 / 100) as u64,
                ..*old(self)
            }),
    {
        let expected: u128 = mul_wide(deployment_cost, 80) / 100;
        self.expected_rent_recovery = expected as u64;
    }

    /// Repaid share of the debt in percent (100 when nothing was borrowed, capped at 255).
    pub fn get_repayment_percentage(&self) -> (r: u8)
        ensures
            r == (if self.borrowed_amount == 0 {
                100
            } else if self.repaid_amount * 100 / self.borrowed_amount as int > 255 {
                255
            } else {
                self.repaid_amount * 100 / self.borrowed_amount as int
            }),
    {
        if self.borrowed_amount == 0 {
            return 100;
        }
        let pct: u128 = mul_wide(self.repaid_amount, 100) / (self.borrowed_amount as u128);
        if pct > 255 {
            255
        } else {
            pct as u8
        }
    }
}

} // verus!
