use vstd::prelude::*;

use crate::errors::ErrorCode;
use crate::pubkey::Pubkey;
use crate::treasury_pool::{add_u64, u64_fits};

verus! {

/// The asset an escrow balance is held in.
#[derive(Clone, Copy, Debug, PartialEq, Eq, Structural)]
pub enum TokenType {
    SOL,
    USDC,
    USDT,
}

impl Default for TokenType {
    fn default() -> (r: TokenType)
        ensures
            r == TokenType::SOL,
    {
        TokenType::SOL
    }
}

/// A developer's pre-funded balance for automatic subscription renewal.
#[derive(Clone, Copy, Debug)]
pub struct DeveloperEscrow {
    pub developer: Pubkey,
    pub sol_balance: u64,
    pub usdc_balance: u64,
    pub usdt_balance: u64,
    pub auto_renew_enabled: bool,
    pub preferred_token: TokenType,
    pub min_balance_alert: u64,
    pub total_deposited_sol: u64,
    pub total_deposited_usdc: u64,
    pub total_deposited_usdt: u64,
    pub total_auto_deducted: u64,
    pub created_at: i64,
    pub last_deposit_at: i64,
    pub last_auto_deduct_at: i64,
    pub bump: u8,
}

impl DeveloperEscrow {
    /// Default low-balance alert threshold: 0.1 SOL.
    pub const DEFAULT_MIN_BALANCE_ALERT: u64 = 100_000_000;

    /// An empty escrow with auto-renewal on and SOL preferred.
    pub fn new(developer: Pubkey, created_at: i64, bump: u8) -> (r: DeveloperEscrow)
        ensures
            r == (DeveloperEscrow {
                developer,
                sol_balance: 0,
                usdc_balance: 0,
                usdt_balance: 0,
                auto_renew_enabled: true,
                preferred_token: TokenType::SOL,
                min_balance_alert: Self::DEFAULT_MIN_BALANCE_ALERT,
                total_deposited_sol: 0,
                total_deposited_usdc: 0,
                total_deposited_usdt: 0,
                total_auto_deducted: 0,
                created_at,
                last_deposit_at: 0,
                last_auto_deduct_at: 0,
                bump,
            }),
    {
        DeveloperEscrow {
            developer,
            sol_balance: 0,
            usdc_balance: 0,
            usdt_balance: 0,
            auto_renew_enabled: true,
            preferred_token: TokenType::SOL,
            min_balance_alert: Self::DEFAULT_MIN_BALANCE_ALERT,
            total_deposited_sol: 0,
            total_deposited_usdc: 0,
            total_deposited_usdt: 0,
            total_auto_deducted: 0,
            created_at,
            last_deposit_at: 0,
            last_auto_deduct_at: 0,
            bump,
        }
    }

    pub open spec fn balance_of(self, token_type: TokenType) -> u64 {
        match token_type {
            TokenType::SOL => self.sol_balance,
            TokenType::USDC => self.usdc_balance,
            TokenType::USDT => self.usdt_balance,
        }
    }

    pub open spec fn deposited_of(self, token_type: TokenType) -> u64 {
        match token_type {
            TokenType::SOL => self.total_deposited_sol,
            TokenType::USDC => self.total_deposited_usdc,
            TokenType::USDT => self.total_deposited_usdt,
        }
    }

    /// The escrow with the balance of `token_type` replaced.
    pub open spec fn with_balance(self, token_type: TokenType, v: u64) -> DeveloperEscrow {
        match token_type {
            TokenType::SOL => DeveloperEscrow { sol_balance: v, ..self },
            TokenType::USDC => DeveloperEscrow { usdc_balance: v, ..self },
            TokenType::USDT => DeveloperEscrow { usdt_balance: v, ..self },
        }
    }

    /// The escrow with the lifetime deposit total of `token_type` replaced.
    pub open spec fn with_deposited(self, token_type: TokenType, v: u64) -> DeveloperEscrow {
        match token_type {
            TokenType::SOL => DeveloperEscrow { total_deposited_sol: v, ..self },
            TokenType::USDC => DeveloperEscrow { total_deposited_usdc: v, ..self },
            TokenType::USDT => DeveloperEscrow { total_deposited_usdt: v, ..self },
        }
    }

    pub fn can_auto_deduct(&self, amount: u64, token_type: TokenType) -> (r: bool)
        ensures
            r == (self.auto_renew_enabled && self.balance_of(token_type) >= amount),
    {
        if !self.auto_renew_enabled {
            return false;
        }
        self.get_balance(token_type) >= amount
    }

    pub fn get_balance(&self, token_type: TokenType) -> (r: u64)
        ensures
            r == self.balance_of(token_type),
    {
        match token_type {
            TokenType::SOL => self.sol_balance,
            TokenType::USDC => self.usdc_balance,
            TokenType::USDT => self.usdt_balance,
        }
    }

    fn set_balance(&mut self, token_type: TokenType, v: u64)
        ensures
            *final(self) == old(self).with_balance(token_type, v),
    {
        match token_type {
            TokenType::SOL => self.sol_balance = v,
            TokenType::USDC => self.usdc_balance = v,
            TokenType::USDT => self.usdt_balance = v,
        }
    }

    /// Takes `amount` of `token_type` out for a renewal.
    pub fn deduct_balance(&mut self, amount: u64, token_type: TokenType, current_time: i64) -> (r: Result<(), ErrorCode>)
        ensures
            r == (if old(self).balance_of(token_type) < amount {
                Err::<(), ErrorCode>(ErrorCode::InsufficientEscrowBalance)
            } else if !u64_fits(old(self).total_auto_deducted + amount) {
                Err::<(), ErrorCode>(ErrorCode::CalculationOverflow)
            } else {
                Ok(())
            }),
            r.is_ok() ==> *final(self) == (DeveloperEscrow {
                total_auto_deducted: (old(self).total_auto_deducted + amount) as u64,
                last_auto_deduct_at: current_time,
                ..old(self).with_balance(token_type, (old(self).balance_of(token_type) - amount) as u64)
            }),
            r.is_err() ==> *final(self) == *old(self),
    {
        let balance = self.get_balance(token_type);
        if balance < amount {
            return Err(ErrorCode::InsufficientEscrowBalance);
        }
        let deducted = add_u64(self.total_auto_deducted, amount)?;
        self.set_balance(token_type, balance - amount);
        self.total_auto_deducted = deducted;
        self.last_auto_deduct_at = current_time;
        Ok(())
    }

    /// Adds a deposit of `amount` of `token_type`.
    pub fn add_balance(&mut self, amount: u64, token_type: TokenType, current_time: i64) -> (r: Result<(), ErrorCode>)
        ensures
            r == (if u64_fits(old(self).balance_of(token_type) + amount) && u64_fits(
                old(self).deposited_of(token_type) + amount,
            ) {
                Ok::<(), ErrorCode>(())
            } else {
                Err::<(), ErrorCode>(ErrorCode::CalculationOverflow)
            }),
            r.is_ok() ==> *final(self) == (DeveloperEscrow {
                last_deposit_at: current_time,
                ..old(self).with_balance(token_type, (old(self).balance_of(token_type) + amount) as u64).with_deposited(
                    token_type,
                    (old(self).deposited_of(token_type) + amount) as u64,
                )
            }),
            r.is_err() ==> *final(self) == *old(self),
    {
        let balance = add_u64(self.get_balance(token_type), amount)?;
        let deposited_before = match token_type {
            TokenType::SOL => self.total_deposited_sol,
            TokenType::USDC => self.total_deposited_usdc,
            TokenType::USDT => self.total_deposited_usdt,
        };
        let deposited = add_u64(deposited_before, amount)?;
        self.set_balance(token_type, balance);
        match token_type {
            TokenType::SOL => self.total_deposited_sol = deposited,
            TokenType::USDC => self.total_deposited_usdc = deposited,
            TokenType::USDT => self.total_deposited_usdt = deposited,
        }
        self.last_deposit_at = current_time;
        Ok(())
    }

    pub fn is_below_alert_threshold(&self) -> (r: bool)
        ensures
            r == (self.balance_of(self.preferred_token) < self.min_balance_alert),
    {
        self.get_balance(self.preferred_token) < self.min_balance_alert
    }
}

} // verus!
