use vstd::prelude::*;

use crate::deploy_request::{DeployRequest, DeployRequestStatus};
use crate::developer_escrow::{DeveloperEscrow, TokenType};
use crate::errors::ErrorCode;
use crate::managed_program::ManagedProgram;
use crate::pubkey::Pubkey;
use crate::treasury_pool::{TreasuryPool, u64_fits};

verus! {

/// Opens an empty escrow for `developer`, auto-renewal on and SOL preferred.
pub fn initialize_escrow(pool: &TreasuryPool, developer: &Pubkey, bump: u8, current_time: i64) -> (r: Result<DeveloperEscrow, ErrorCode>)
    ensures
        pool.emergency_pause ==> r == Err::<DeveloperEscrow, ErrorCode>(ErrorCode::ProgramPaused),
        !pool.emergency_pause ==> r == Ok::<DeveloperEscrow, ErrorCode>(
            DeveloperEscrow {
                developer: *developer,
                sol_balance: 0,
                usdc_balance: 0,
                usdt_balance: 0,
                auto_renew_enabled: true,
                preferred_token: TokenType::SOL,
                min_balance_alert: DeveloperEscrow::DEFAULT_MIN_BALANCE_ALERT,
                total_deposited_sol: 0,
                total_deposited_usdc: 0,
                total_deposited_usdt: 0,
                total_auto_deducted: 0,
                created_at: current_time,
                last_deposit_at: 0,
                last_auto_deduct_at: 0,
                bump,
            },
        ),
{
    if pool.emergency_pause {
        return Err(ErrorCode::ProgramPaused);
    }
    Ok(DeveloperEscrow::new(*developer, current_time, bump))
}

/// The checks shared by the escrow operations of its owner, in this order.
pub open spec fn escrow_owner_error(pool: TreasuryPool, escrow: DeveloperEscrow, developer: Pubkey) -> Option<ErrorCode> {
    if escrow.developer@ != developer@ {
        Some(ErrorCode::Unauthorized)
    } else if pool.emergency_pause {
        Some(ErrorCode::ProgramPaused)
    } else {
        None
    }
}

/// The owner deposits `amount` lamports into the escrow; the caller moves them.
pub fn deposit_escrow_sol(
    pool: &TreasuryPool,
    escrow: &mut DeveloperEscrow,
    developer: &Pubkey,
    amount: u64,
    current_time: i64,
) -> (r: Result<(), ErrorCode>)
    ensures
        r == (if escrow_owner_error(*pool, *old(escrow), *developer) is Some {
            Err::<(), ErrorCode>(escrow_owner_error(*pool, *old(escrow), *developer)->Some_0)
        } else if amount == 0 {
            Err::<(), ErrorCode>(ErrorCode::InvalidAmount)
        } else if !u64_fits(old(escrow).sol_balance + amount) || !u64_fits(old(escrow).total_deposited_sol + amount) {
            Err::<(), ErrorCode>(ErrorCode::CalculationOverflow)
        } else {
            Ok(())
        }),
        r.is_ok() ==> *final(escrow) == (DeveloperEscrow {
            sol_balance: (old(escrow).sol_balance + amount) as u64,
            total_deposited_sol: (old(escrow).total_deposited_sol + amount) as u64,
            last_deposit_at: current_time,
            ..*old(escrow)
        }),
        r.is_err() ==> *final(escrow) == *old(escrow),
{
    if !escrow.developer.same(developer) {
        return Err(ErrorCode::Unauthorized);
    }
    if pool.emergency_pause {
        return Err(ErrorCode::ProgramPaused);
    }
    if amount == 0 {
        return Err(ErrorCode::InvalidAmount);
    }
    escrow.add_balance(amount, TokenType::SOL, current_time)
}

/// The owner takes `amount` lamports back out of the escrow; the caller moves them.
pub fn withdraw_escrow_sol(pool: &TreasuryPool, escrow: &mut DeveloperEscrow, developer: &Pubkey, amount: u64) -> (r: Result<(), ErrorCode>)
    ensures
        r == (if escrow_owner_error(*pool, *old(escrow), *developer) is Some {
            Err::<(), ErrorCode>(escrow_owner_error(*pool, *old(escrow), *developer)->Some_0)
        } else if amount == 0 {
            Err::<(), ErrorCode>(ErrorCode::InvalidAmount)
        } else if old(escrow).sol_balance < amount {
            Err::<(), ErrorCode>(ErrorCode::InsufficientEscrowBalance)
        } else {
            Ok(())
        }),
        r.is_ok() ==> *final(escrow) == (DeveloperEscrow {
            sol_balance: (old(escrow).sol_balance - amount) as u64,
            ..*old(escrow)
        }),
        r.is_err() ==> *final(escrow) == *old(escrow),
{
    if !escrow.developer.same(developer) {
        return Err(ErrorCode::Unauthorized);
    }
    if pool.emergency_pause {
        return Err(ErrorCode::ProgramPaused);
    }
    if amount == 0 {
        return Err(ErrorCode::InvalidAmount);
    }
    if escrow.sol_balance < amount {
        return Err(ErrorCode::InsufficientEscrowBalance);
    }
    escrow.sol_balance = escrow.sol_balance - amount;
    Ok(())
}

/// The owner switches automatic renewal on or off.
pub fn toggle_auto_renew(pool: &TreasuryPool, escrow: &mut DeveloperEscrow, developer: &Pubkey, enabled: bool) -> (r: Result<(), ErrorCode>)
    ensures
        r == (match escrow_owner_error(*pool, *old(escrow), *developer) {
            Some(e) => Err::<(), ErrorCode>(e),
            None => Ok(()),
        }),
        r.is_ok() ==> *final(escrow) == (DeveloperEscrow { auto_renew_enabled: enabled, ..*old(escrow) }),
        r.is_err() ==> *final(escrow) == *old(escrow),
{
    if !escrow.developer.same(developer) {
        return Err(ErrorCode::Unauthorized);
    }
    if pool.emergency_pause {
        return Err(ErrorCode::ProgramPaused);
    }
    escrow.auto_renew_enabled = enabled;
    Ok(())
}

/// The token with code `code`: 0 SOL, 1 USDC, 2 USDT.
pub open spec fn token_of(code: u8) -> TokenType {
    if code == 0 {
        TokenType::SOL
    } else if code == 1 {
        TokenType::USDC
    } else {
        TokenType::USDT
    }
}

/// The owner picks the token renewals are paid in (0 SOL, 1 USDC, 2 USDT).
pub fn set_preferred_token(pool: &TreasuryPool, escrow: &mut DeveloperEscrow, developer: &Pubkey, token_type: u8) -> (r: Result<(), ErrorCode>)
    ensures
        r == (if escrow_owner_error(*pool, *old(escrow), *developer) is Some {
            Err::<(), ErrorCode>(escrow_owner_error(*pool, *old(escrow), *developer)->Some_0)
        } else if token_type > 2 {
            Err::<(), ErrorCode>(ErrorCode::InvalidTokenType)
        } else {
            Ok(())
        }),
        r.is_ok() ==> *final(escrow) == (DeveloperEscrow { preferred_token: token_of(token_type), ..*old(escrow) }),
        r.is_err() ==> *final(escrow) == *old(escrow),
{
    if !escrow.developer.same(developer) {
        return Err(ErrorCode::Unauthorized);
    }
    if pool.emergency_pause {
        return Err(ErrorCode::ProgramPaused);
    }
    let preferred = match token_type {
        0 => TokenType::SOL,
        1 => TokenType::USDC,
        2 => TokenType::USDT,
        _ => return Err(ErrorCode::InvalidTokenType),
    };
    escrow.preferred_token = preferred;
    Ok(())
}

/// The failure of a proxied upgrade, if any, checked in this order.
pub open spec fn proxy_upgrade_error(
    pool: TreasuryPool,
    request: DeployRequest,
    managed: ManagedProgram,
    developer: Pubkey,
    now: i64,
) -> Option<ErrorCode> {
    if !managed.is_active {
        Some(ErrorCode::ProgramNotManaged)
    } else if managed.developer@ != developer@ {
        Some(ErrorCode::Unauthorized)
    } else if pool.emergency_pause {
        Some(ErrorCode::ProgramPaused)
    } else if request.developer@ != developer@ {
        Some(ErrorCode::Unauthorized)
    } else if request.status != DeployRequestStatus::Active {
        Some(ErrorCode::InvalidDeploymentStatus)
    } else if now > request.subscription_paid_until {
        Some(ErrorCode::SubscriptionExpired)
    } else {
        None
    }
}

/// Decides whether the developer may upgrade a managed program now (active
/// deployment, valid subscription) and books the upgrade; the caller then
/// performs it through the program loader.
pub fn proxy_upgrade_program(
    pool: &TreasuryPool,
    request: &DeployRequest,
    managed: &mut ManagedProgram,
    developer: &Pubkey,
    current_time: i64,
) -> (r: Result<(), ErrorCode>)
    ensures
        r == (match proxy_upgrade_error(*pool, *request, *old(managed), *developer, current_time) {
            Some(e) => Err::<(), ErrorCode>(e),
            None => Ok(()),
        }),
        r.is_ok() ==> *final(managed) == (ManagedProgram {
            last_upgraded_at: current_time,
            upgrade_count: if old(managed).upgrade_count < u32::MAX {
                (old(managed).upgrade_count + 1) as u32
            } else {
                u32::MAX
            },
            ..*old(managed)
        }),
        r.is_err() ==> *final(managed) == *old(managed),
{
    if !managed.is_active {
        return Err(ErrorCode::ProgramNotManaged);
    }
    if !managed.developer.same(developer) {
        return Err(ErrorCode::Unauthorized);
    }
    if pool.emergency_pause {
        return Err(ErrorCode::ProgramPaused);
    }
    if !request.developer.same(developer) {
        return Err(ErrorCode::Unauthorized);
    }
    if request.status != DeployRequestStatus::Active {
        return Err(ErrorCode::InvalidDeploymentStatus);
    }
    if !request.is_subscription_valid(current_time) {
        return Err(ErrorCode::SubscriptionExpired);
    }
    managed.last_upgraded_at = current_time;
    managed.upgrade_count = managed.upgrade_count.saturating_add(1);
    Ok(())
}

/// Records that the protocol now holds the upgrade authority of a live
/// deployment (admin only). Returns the new management record; the caller
/// performs the authority change through the program loader.
pub fn transfer_authority_to_pda(
    pool: &TreasuryPool,
    request: &DeployRequest,
    caller: &Pubkey,
    program_id: Pubkey,
    deploy_request_key: Pubkey,
    authority_pda: Pubkey,
    bump: u8,
    current_time: i64,
) -> (r: Result<ManagedProgram, ErrorCode>)
    ensures
        r == (if request.status != DeployRequestStatus::Active {
            Err::<ManagedProgram, ErrorCode>(ErrorCode::InvalidDeploymentStatus)
        } else if !pool.is_admin_spec(*caller) {
            Err::<ManagedProgram, ErrorCode>(ErrorCode::Unauthorized)
        } else if pool.emergency_pause {
            Err::<ManagedProgram, ErrorCode>(ErrorCode::ProgramPaused)
        } else {
            Ok::<ManagedProgram, ErrorCode>(
                ManagedProgram {
                    program_id,
                    developer: request.developer,
                    deploy_request: deploy_request_key,
                    authority_pda,
                    created_at: current_time,
                    last_upgraded_at: current_time,
                    upgrade_count: 0,
                    is_active: true,
                    bump,
                },
            )
        }),
{
    if request.status != DeployRequestStatus::Active {
        return Err(ErrorCode::InvalidDeploymentStatus);
    }
    if !pool.is_admin(caller) {
        return Err(ErrorCode::Unauthorized);
    }
    if pool.emergency_pause {
        return Err(ErrorCode::ProgramPaused);
    }
    Ok(
        ManagedProgram {
            program_id,
            developer: request.developer,
            deploy_request: deploy_request_key,
            authority_pda,
            created_at: current_time,
            last_upgraded_at: current_time,
            upgrade_count: 0,
            is_active: true,
            bump,
        },
    )
}

} // verus!
