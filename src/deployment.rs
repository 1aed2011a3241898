use vstd::prelude::*;

use crate::deploy_request::{DeployRequest, DeployRequestStatus};
use crate::developer_escrow::DeveloperEscrow;
use crate::errors::ErrorCode;
use crate::managed_program::ManagedProgram;
use crate::pubkey::{Pubkey, same_id};
use crate::treasury_pool::{TreasuryPool, add_u64, u64_fits};

verus! {

/// What a developer pays up front: the service fee and the first months.
pub open spec fn upfront_payment(service_fee: u64, monthly_fee: u64, months: u32) -> int {
    service_fee + monthly_fee * months
}

/// The failure of a funding request, if any, checked in this order.
pub open spec fn request_funds_error(
    pool: TreasuryPool,
    service_fee: u64,
    monthly_fee: u64,
    initial_months: u32,
    deployment_cost: u64,
    now: i64,
) -> Option<ErrorCode> {
    let payment = upfront_payment(service_fee, monthly_fee, initial_months);
    if pool.emergency_pause {
        Some(ErrorCode::ProgramPaused)
    } else if initial_months == 0 || deployment_cost == 0 {
        Some(ErrorCode::InvalidAmount)
    } else if initial_months > DeployRequest::MAX_EXTENSION_MONTHS {
        Some(ErrorCode::SubscriptionExtensionTooLarge)
    } else if !pool.within_utilization_cap(deployment_cost as int) {
        Some(ErrorCode::PoolUtilizationTooHigh)
    } else if !u64_fits(payment) || now + initial_months * DeployRequest::SECONDS_PER_MONTH > i64::MAX {
        Some(ErrorCode::CalculationOverflow)
    } else if pool.credit_fee_error(payment as u64, 0) is Some {
        pool.credit_fee_error(payment as u64, 0)
    } else if !u64_fits(pool.total_borrowed + deployment_cost) || pool.active_deployment_count == u32::MAX {
        Some(ErrorCode::CalculationOverflow)
    } else {
        None
    }
}

/// A developer asks the treasury to fund a deployment costing
/// `deployment_cost`, paying the service fee and `initial_months` of
/// subscription into the reward pool. The loan must keep borrowing within
/// 80% of the deposits (no cap while nothing is deposited). Returns the new
/// request; the caller moves the payment from the developer to the reward pool.
pub fn request_deployment_funds(
    pool: &mut TreasuryPool,
    developer: &Pubkey,
    request_id: [u8; 32],
    program_hash: [u8; 32],
    service_fee: u64,
    monthly_fee: u64,
    initial_months: u32,
    deployment_cost: u64,
    bump: u8,
    current_time: i64,
) -> (r: Result<DeployRequest, ErrorCode>)
    ensures
        match request_funds_error(*old(pool), service_fee, monthly_fee, initial_months, deployment_cost, current_time) {
            Some(e) => r == Err::<DeployRequest, ErrorCode>(e) && *final(pool) == *old(pool),
            None => {
                let payment = upfront_payment(service_fee, monthly_fee, initial_months) as u64;
                let credited = old(pool).credit_fee_spec(payment, 0);
                &&& *final(pool) == (TreasuryPool {
                    total_borrowed: (credited.total_borrowed + deployment_cost) as u64,
                    active_deployment_count: (credited.active_deployment_count + 1) as u32,
                    ..credited
                })
                &&& r == Ok::<DeployRequest, ErrorCode>(
                    DeployRequest {
                        request_id,
                        developer: *developer,
                        program_hash,
                        service_fee,
                        monthly_fee,
                        deployment_cost,
                        borrowed_amount: deployment_cost,
                        subscription_paid_until: (current_time + initial_months * DeployRequest::SECONDS_PER_MONTH) as i64,
                        ephemeral_key: None,
                        deployed_program_id: None,
                        status: DeployRequestStatus::PendingDeployment,
                        created_at: current_time,
                        bump,
                        grace_period_days: 0,
                        grace_period_end: 0,
                        total_subscribed_months: initial_months,
                        auto_renewal_enabled: false,
                        last_renewal_at: 0,
                        auto_renewal_failed_count: 0,
                        repaid_amount: 0,
                        expected_rent_recovery: (deployment_cost * 80 / 100) as u64,
                        actual_rent_recovered: 0,
                        recovery_ratio_bps: 0,
                        debt_repaid_at: 0,
                    },
                )
            },
        },
{
    if pool.emergency_pause {
        return Err(ErrorCode::ProgramPaused);
    }
    if initial_months == 0 || deployment_cost == 0 {
        return Err(ErrorCode::InvalidAmount);
    }
    if initial_months > DeployRequest::MAX_EXTENSION_MONTHS {
        return Err(ErrorCode::SubscriptionExtensionTooLarge);
    }
    if !pool.check_utilization_limit(deployment_cost)? {
        return Err(ErrorCode::PoolUtilizationTooHigh);
    }
    let monthly_total = match monthly_fee.checked_mul(initial_months as u64) {
        Some(v) => v,
        None => return Err(ErrorCode::CalculationOverflow),
    };
    let payment = add_u64(service_fee, monthly_total)?;
    let paid_until = match current_time.checked_add((initial_months as i64) * DeployRequest::SECONDS_PER_MONTH) {
        Some(v) => v,
        None => return Err(ErrorCode::CalculationOverflow),
    };
    let mut p = *pool;
    p.credit_fee_to_pool(payment, 0)?;
    p.record_deployment_borrow(deployment_cost)?;
    let mut request = DeployRequest {
        request_id,
        developer: *developer,
        program_hash,
        service_fee,
        monthly_fee,
        deployment_cost,
        borrowed_amount: deployment_cost,
        subscription_paid_until: paid_until,
        ephemeral_key: None,
        deployed_program_id: None,
        status: DeployRequestStatus::PendingDeployment,
        created_at: current_time,
        bump,
        grace_period_days: 0,
        grace_period_end: 0,
        total_subscribed_months: initial_months,
        auto_renewal_enabled: false,
        last_renewal_at: 0,
        auto_renewal_failed_count: 0,
        repaid_amount: 0,
        expected_rent_recovery: 0,
        actual_rent_recovered: 0,
        recovery_ratio_bps: 0,
        debt_repaid_at: 0,
    };
    request.set_expected_rent_recovery(deployment_cost);
    *pool = p;
    Ok(request)
}

/// The failure of funding the one-time deployment wallet, if any, checked in this order.
pub open spec fn fund_wallet_error(pool: TreasuryPool, request: DeployRequest, caller: Pubkey, request_id: [u8; 32], amount: u64) -> Option<ErrorCode> {
    if !pool.is_admin_spec(caller) {
        Some(ErrorCode::Unauthorized)
    } else if pool.emergency_pause {
        Some(ErrorCode::ProgramPaused)
    } else if request.request_id@ != request_id@ {
        Some(ErrorCode::InvalidRequestId)
    } else if request.status != DeployRequestStatus::PendingDeployment {
        Some(ErrorCode::InvalidRequestStatus)
    } else if request.ephemeral_key is Some {
        Some(ErrorCode::InvalidEphemeralKey)
    } else if amount == 0 || amount > request.deployment_cost {
        Some(ErrorCode::InvalidAmount)
    } else if pool.liquid_balance < amount {
        Some(ErrorCode::InsufficientLiquidBalance)
    } else {
        None
    }
}

/// Sends up to the deployment cost from the liquid balance to a one-time
/// wallet and records that wallet on the request; this is the only way the
/// key gets set. The caller moves `amount` from the treasury to the wallet.
pub fn fund_temporary_wallet(
    pool: &mut TreasuryPool,
    request: &mut DeployRequest,
    caller: &Pubkey,
    request_id: [u8; 32],
    ephemeral_key: Pubkey,
    amount: u64,
) -> (r: Result<(), ErrorCode>)
    ensures
        r == (match fund_wallet_error(*old(pool), *old(request), *caller, request_id, amount) {
            Some(e) => Err::<(), ErrorCode>(e),
            None => Ok(()),
        }),
        r.is_ok() ==> *final(pool) == (TreasuryPool {
            liquid_balance: (old(pool).liquid_balance - amount) as u64,
            ..*old(pool)
        }) && *final(request) == (DeployRequest { ephemeral_key: Some(ephemeral_key), ..*old(request) }),
        r.is_err() ==> *final(pool) == *old(pool) && *final(request) == *old(request),
{
    if !pool.is_admin(caller) {
        return Err(ErrorCode::Unauthorized);
    }
    if pool.emergency_pause {
        return Err(ErrorCode::ProgramPaused);
    }
    if !same_id(&request.request_id, &request_id) {
        return Err(ErrorCode::InvalidRequestId);
    }
    if request.status != DeployRequestStatus::PendingDeployment {
        return Err(ErrorCode::InvalidRequestStatus);
    }
    if request.ephemeral_key.is_some() {
        return Err(ErrorCode::InvalidEphemeralKey);
    }
    if amount == 0 || amount > request.deployment_cost {
        return Err(ErrorCode::InvalidAmount);
    }
    if pool.liquid_balance < amount {
        return Err(ErrorCode::InsufficientLiquidBalance);
    }
    pool.liquid_balance = pool.liquid_balance - amount;
    request.ephemeral_key = Some(ephemeral_key);
    Ok(())
}

/// The checks shared by both confirmations, in this order.
pub open spec fn confirm_common_error(pool: TreasuryPool, request: DeployRequest, caller: Pubkey, request_id: [u8; 32]) -> Option<ErrorCode> {
    if !pool.is_admin_spec(caller) {
        Some(ErrorCode::Unauthorized)
    } else if pool.emergency_pause {
        Some(ErrorCode::ProgramPaused)
    } else if request.request_id@ != request_id@ {
        Some(ErrorCode::InvalidRequestId)
    } else if request.status != DeployRequestStatus::PendingDeployment {
        Some(ErrorCode::InvalidRequestStatus)
    } else {
        None
    }
}

/// Whether `key` is the wallet recorded on the request.
pub open spec fn key_matches(request: DeployRequest, key: Pubkey) -> bool {
    request.ephemeral_key is Some && request.ephemeral_key->Some_0@ == key@
}

/// What comes back from the one-time wallet after a successful deployment.
pub open spec fn recovered_part(recovered_funds: u64, ephemeral_balance: u64) -> int {
    if recovered_funds <= ephemeral_balance {
        recovered_funds as int
    } else {
        ephemeral_balance as int
    }
}

/// The failure of confirming a deployment, if any, checked in this order.
pub open spec fn confirm_success_error(
    pool: TreasuryPool,
    request: DeployRequest,
    caller: Pubkey,
    request_id: [u8; 32],
    ephemeral_key: Pubkey,
    recovered_funds: u64,
    ephemeral_balance: u64,
) -> Option<ErrorCode> {
    if confirm_common_error(pool, request, caller, request_id) is Some {
        confirm_common_error(pool, request, caller, request_id)
    } else if recovered_funds > request.deployment_cost {
        Some(ErrorCode::InvalidRecoveredFunds)
    } else if request.ephemeral_key is None {
        Some(ErrorCode::EphemeralKeyNotSet)
    } else if !key_matches(request, ephemeral_key) {
        Some(ErrorCode::InvalidEphemeralKey)
    } else if !u64_fits(pool.liquid_balance + recovered_part(recovered_funds, ephemeral_balance)) {
        Some(ErrorCode::CalculationOverflow)
    } else {
        None
    }
}

/// Marks a funded deployment live and takes what the one-time wallet did not
/// spend (at most `recovered_funds`, at most its balance) back into the
/// liquid balance. Returns the amount the caller moves back to the treasury.
pub fn confirm_deployment_success(
    pool: &mut TreasuryPool,
    request: &mut DeployRequest,
    caller: &Pubkey,
    request_id: [u8; 32],
    deployed_program_id: Pubkey,
    ephemeral_key: &Pubkey,
    recovered_funds: u64,
    ephemeral_balance: u64,
) -> (r: Result<u64, ErrorCode>)
    ensures
        r == (match confirm_success_error(
            *old(pool),
            *old(request),
            *caller,
            request_id,
            *ephemeral_key,
            recovered_funds,
            ephemeral_balance,
        ) {
            Some(e) => Err::<u64, ErrorCode>(e),
            None => Ok(recovered_part(recovered_funds, ephemeral_balance) as u64),
        }),
        r.is_ok() ==> *final(pool) == (TreasuryPool {
            liquid_balance: (old(pool).liquid_balance + recovered_part(recovered_funds, ephemeral_balance)) as u64,
            ..*old(pool)
        }) && *final(request) == (DeployRequest {
            status: DeployRequestStatus::Active,
            deployed_program_id: Some(deployed_program_id),
            ..*old(request)
        }),
        r.is_err() ==> *final(pool) == *old(pool) && *final(request) == *old(request),
{
    if !pool.is_admin(caller) {
        return Err(ErrorCode::Unauthorized);
    }
    if pool.emergency_pause {
        return Err(ErrorCode::ProgramPaused);
    }
    if !same_id(&request.request_id, &request_id) {
        return Err(ErrorCode::InvalidRequestId);
    }
    if request.status != DeployRequestStatus::PendingDeployment {
        return Err(ErrorCode::InvalidRequestStatus);
    }
    if recovered_funds > request.deployment_cost {
        return Err(ErrorCode::InvalidRecoveredFunds);
    }
    let recorded_key = match request.ephemeral_key {
        Some(k) => k,
        None => return Err(ErrorCode::EphemeralKeyNotSet),
    };
    if !recorded_key.same(ephemeral_key) {
        return Err(ErrorCode::InvalidEphemeralKey);
    }
    let actual_recovered = if recovered_funds <= ephemeral_balance { recovered_funds } else { ephemeral_balance };
    pool.liquid_balance = add_u64(pool.liquid_balance, actual_recovered)?;
    request.status = DeployRequestStatus::Active;
    request.deployed_program_id = Some(deployed_program_id);
    Ok(actual_recovered)
}

/// Months of subscription paid at creation, at least one.
pub open spec fn months_paid(request: DeployRequest) -> int {
    let span = request.subscription_paid_until - request.created_at;
    if span >= DeployRequest::SECONDS_PER_MONTH {
        span / (DeployRequest::SECONDS_PER_MONTH as int)
    } else {
        1
    }
}

/// What a failed deployment refunds: the service fee and the months paid.
pub open spec fn failure_refund(request: DeployRequest) -> int {
    request.service_fee + request.monthly_fee * months_paid(request)
}

/// The failure of recording a failed deployment, if any, checked in this order.
pub open spec fn confirm_failure_error(
    pool: TreasuryPool,
    request: DeployRequest,
    caller: Pubkey,
    request_id: [u8; 32],
    ephemeral_key: Pubkey,
    reward_pool_lamports: u64,
    ephemeral_balance: u64,
) -> Option<ErrorCode> {
    let refund = failure_refund(request);
    if confirm_common_error(pool, request, caller, request_id) is Some {
        confirm_common_error(pool, request, caller, request_id)
    } else if request.ephemeral_key is None {
        Some(ErrorCode::EphemeralKeyNotSet)
    } else if !key_matches(request, ephemeral_key) {
        Some(ErrorCode::InvalidEphemeralKey)
    } else if !u64_fits(request.monthly_fee * months_paid(request)) || !u64_fits(refund) {
        Some(ErrorCode::CalculationOverflow)
    } else if refund > TreasuryPool::MAX_AMOUNT {
        Some(ErrorCode::FeeAmountTooLarge)
    } else if reward_pool_lamports < refund {
        Some(ErrorCode::InsufficientTreasuryFunds)
    } else if !u64_fits(pool.liquid_balance + ephemeral_balance) || pool.reward_pool_balance < refund {
        Some(ErrorCode::CalculationOverflow)
    } else {
        None
    }
}

/// Records a failed deployment: the developer's payment is refunded from
/// the reward pool and whatever is left in the one-time wallet returns to
/// the liquid balance. Returns the refund; the caller moves it to the
/// developer and `ephemeral_balance` back to the treasury.
pub fn confirm_deployment_failure(
    pool: &mut TreasuryPool,
    request: &mut DeployRequest,
    caller: &Pubkey,
    request_id: [u8; 32],
    ephemeral_key: &Pubkey,
    reward_pool_lamports: u64,
    ephemeral_balance: u64,
) -> (r: Result<u64, ErrorCode>)
    ensures
        r == (match confirm_failure_error(
            *old(pool),
            *old(request),
            *caller,
            request_id,
            *ephemeral_key,
            reward_pool_lamports,
            ephemeral_balance,
        ) {
            Some(e) => Err::<u64, ErrorCode>(e),
            None => Ok(failure_refund(*old(request)) as u64),
        }),
        r.is_ok() ==> *final(pool) == (TreasuryPool {
            liquid_balance: (old(pool).liquid_balance + ephemeral_balance) as u64,
            reward_pool_balance: (old(pool).reward_pool_balance - failure_refund(*old(request))) as u64,
            ..*old(pool)
        }) && *final(request) == (DeployRequest { status: DeployRequestStatus::Failed, ..*old(request) }),
        r.is_err() ==> *final(pool) == *old(pool) && *final(request) == *old(request),
{
    if !pool.is_admin(caller) {
        return Err(ErrorCode::Unauthorized);
    }
    if pool.emergency_pause {
        return Err(ErrorCode::ProgramPaused);
    }
    if !same_id(&request.request_id, &request_id) {
        return Err(ErrorCode::InvalidRequestId);
    }
    if request.status != DeployRequestStatus::PendingDeployment {
        return Err(ErrorCode::InvalidRequestStatus);
    }
    let recorded_key = match request.ephemeral_key {
        Some(k) => k,
        None => return Err(ErrorCode::EphemeralKeyNotSet),
    };
    if !recorded_key.same(ephemeral_key) {
        return Err(ErrorCode::InvalidEphemeralKey);
    }
    let span: i128 = (request.subscription_paid_until as i128) - (request.created_at as i128);
    let months: u64 = if span >= DeployRequest::SECONDS_PER_MONTH as i128 {
        (span / (DeployRequest::SECONDS_PER_MONTH as i128)) as u64
    } else {
        1
    };
    let monthly_payment = match request.monthly_fee.checked_mul(months) {
        Some(v) => v,
        None => return Err(ErrorCode::CalculationOverflow),
    };
    let refund_amount = add_u64(request.service_fee, monthly_payment)?;
    if refund_amount > TreasuryPool::MAX_AMOUNT {
        return Err(ErrorCode::FeeAmountTooLarge);
    }
    if reward_pool_lamports < refund_amount {
        return Err(ErrorCode::InsufficientTreasuryFunds);
    }
    let liquid = add_u64(pool.liquid_balance, ephemeral_balance)?;
    let mut p = *pool;
    p.debit_reward_pool(refund_amount)?;
    p.liquid_balance = liquid;
    *pool = p;
    request.status = DeployRequestStatus::Failed;
    Ok(refund_amount)
}

/// The failure of reclaiming a program's rent, if any, checked in this order.
pub open spec fn reclaim_error(
    pool: TreasuryPool,
    request: DeployRequest,
    managed: ManagedProgram,
    caller: Pubkey,
    recovered: u64,
    now: i64,
) -> Option<ErrorCode> {
    let debt = request.debt_part(recovered);
    let excess = (recovered - debt) as u64;
    let pool_mid = pool.debt_repayment_spec(recovered, request.remaining_debt() as u64);
    if !pool.is_admin_spec(caller) {
        Some(ErrorCode::Unauthorized)
    } else if !managed.is_active {
        Some(ErrorCode::ProgramNotManaged)
    } else if pool.emergency_pause {
        Some(ErrorCode::ProgramPaused)
    } else if now <= request.subscription_paid_until {
        Some(ErrorCode::SubscriptionStillActive)
    } else if !u64_fits(request.repaid_amount + debt) || !u64_fits(request.actual_rent_recovered + recovered) || (
    request.borrowed_amount > 0 && !u64_fits(
        (request.actual_rent_recovered + recovered) * 10000 / (request.borrowed_amount as int),
    )) || !u64_fits(pool.total_recovered + recovered) || !u64_fits(pool.total_debt_repaid + debt) || !u64_fits(
        pool.liquid_balance + debt,
    ) {
        Some(ErrorCode::CalculationOverflow)
    } else if excess > 0 && pool_mid.credit_fee_error(excess, 0) is Some {
        pool_mid.credit_fee_error(excess, 0)
    } else {
        None
    }
}

/// Books the rent recovered when an expired program is closed: it repays
/// the loan first, the excess goes to the stakers' reward pool, and the
/// request is closed. Returns `(debt_repayment, excess_to_rewards)`.
pub fn reclaim_program_rent(
    pool: &mut TreasuryPool,
    request: &mut DeployRequest,
    managed: &mut ManagedProgram,
    caller: &Pubkey,
    program_data_lamports: u64,
    current_time: i64,
) -> (r: Result<(u64, u64), ErrorCode>)
    ensures
        match reclaim_error(*old(pool), *old(request), *old(managed), *caller, program_data_lamports, current_time) {
            Some(e) => r == Err::<(u64, u64), ErrorCode>(e) && *final(pool) == *old(pool) && *final(request) == *old(
                request,
            ) && *final(managed) == *old(managed),
            None => {
                let debt = old(request).debt_part(program_data_lamports);
                let excess = (program_data_lamports - debt) as u64;
                let pool_mid = old(pool).debt_repayment_spec(program_data_lamports, old(request).remaining_debt() as u64);
                &&& r == Ok::<(u64, u64), ErrorCode>((debt as u64, excess))
                &&& *final(pool) == (if excess > 0 { pool_mid.credit_fee_spec(excess, 0) } else { pool_mid })
                &&& *final(request) == (DeployRequest {
                    status: DeployRequestStatus::Closed,
                    ..old(request).rent_recovery_spec(program_data_lamports, current_time)
                })
                &&& *final(managed) == (ManagedProgram { is_active: false, ..*old(managed) })
            },
        },
{
    if !pool.is_admin(caller) {
        return Err(ErrorCode::Unauthorized);
    }
    if !managed.is_active {
        return Err(ErrorCode::ProgramNotManaged);
    }
    if pool.emergency_pause {
        return Err(ErrorCode::ProgramPaused);
    }
    if request.is_subscription_valid(current_time) {
        return Err(ErrorCode::SubscriptionStillActive);
    }
    let mut p = *pool;
    let mut q = *request;
    let remaining_debt = q.get_remaining_debt();
    let (debt_repayment, excess_to_rewards) = q.record_rent_recovery(program_data_lamports, current_time)?;
    p.record_debt_repayment(program_data_lamports, remaining_debt)?;
    if excess_to_rewards > 0 {
        p.credit_fee_to_pool(excess_to_rewards, 0)?;
    }
    q.status = DeployRequestStatus::Closed;
    managed.is_active = false;
    *pool = p;
    *request = q;
    Ok((debt_repayment, excess_to_rewards))
}


/// The failure of a subscription payment, if any, checked in this order.
pub open spec fn pay_subscription_error(pool: TreasuryPool, request: DeployRequest, developer: Pubkey, request_id: [u8; 32], months: u32) -> Option<ErrorCode> {
    if pool.emergency_pause {
        Some(ErrorCode::ProgramPaused)
    } else if request.request_id@ != request_id@ {
        Some(ErrorCode::InvalidRequestId)
    } else if request.developer@ != developer@ {
        Some(ErrorCode::Unauthorized)
    } else if months == 0 {
        Some(ErrorCode::InvalidAmount)
    } else if request.status != DeployRequestStatus::Active && request.status != DeployRequestStatus::SubscriptionExpired {
        Some(ErrorCode::InvalidRequestStatus)
    } else if !u64_fits(request.monthly_fee * months) {
        Some(ErrorCode::CalculationOverflow)
    } else if request.extend_error(months) is Some {
        request.extend_error(months)
    } else {
        pool.credit_fee_error((request.monthly_fee * months) as u64, 0)
    }
}

/// The developer pays `months` more months; the payment is fee income for
/// the stakers. Returns the payment, which the caller moves from the
/// developer to the reward pool.
pub fn pay_subscription(
    pool: &mut TreasuryPool,
    request: &mut DeployRequest,
    developer: &Pubkey,
    request_id: [u8; 32],
    months: u32,
    current_time: i64,
) -> (r: Result<u64, ErrorCode>)
    ensures
        r == (match pay_subscription_error(*old(pool), *old(request), *developer, request_id, months) {
            Some(e) => Err::<u64, ErrorCode>(e),
            None => Ok((old(request).monthly_fee * months) as u64),
        }),
        r.is_ok() ==> *final(pool) == old(pool).credit_fee_spec((old(request).monthly_fee * months) as u64, 0)
            && *final(request) == (DeployRequest {
            status: DeployRequestStatus::Active,
            ..old(request).extend_spec(months, current_time)
        }),
        r.is_err() ==> *final(pool) == *old(pool) && *final(request) == *old(request),
{
    if pool.emergency_pause {
        return Err(ErrorCode::ProgramPaused);
    }
    if !same_id(&request.request_id, &request_id) {
        return Err(ErrorCode::InvalidRequestId);
    }
    if !request.developer.same(developer) {
        return Err(ErrorCode::Unauthorized);
    }
    if months == 0 {
        return Err(ErrorCode::InvalidAmount);
    }
    if request.status != DeployRequestStatus::Active && request.status != DeployRequestStatus::SubscriptionExpired {
        return Err(ErrorCode::InvalidRequestStatus);
    }
    let payment_amount = match request.monthly_fee.checked_mul(months as u64) {
        Some(v) => v,
        None => return Err(ErrorCode::CalculationOverflow),
    };
    let mut q = *request;
    q.extend_subscription(months, current_time)?;
    q.status = DeployRequestStatus::Active;
    pool.credit_fee_to_pool(payment_amount, 0)?;
    *request = q;
    Ok(payment_amount)
}

/// The failure of an automatic renewal, if any, checked in this order.
pub open spec fn auto_renew_error(
    pool: TreasuryPool,
    request: DeployRequest,
    escrow: DeveloperEscrow,
    caller: Pubkey,
    request_id: [u8; 32],
    months: u32,
) -> Option<ErrorCode> {
    let payment = request.monthly_fee * months;
    if request.request_id@ != request_id@ {
        Some(ErrorCode::InvalidRequestId)
    } else if escrow.developer@ != request.developer@ || !pool.is_admin_spec(caller) {
        Some(ErrorCode::Unauthorized)
    } else if pool.emergency_pause {
        Some(ErrorCode::ProgramPaused)
    } else if months == 0 {
        Some(ErrorCode::InvalidAmount)
    } else if request.status != DeployRequestStatus::Active && request.status != DeployRequestStatus::SubscriptionExpired
        && request.status != DeployRequestStatus::InGracePeriod {
        Some(ErrorCode::InvalidRequestStatus)
    } else if !escrow.auto_renew_enabled || !request.auto_renewal_enabled {
        Some(ErrorCode::AutoRenewalDisabled)
    } else if !u64_fits(payment) {
        Some(ErrorCode::CalculationOverflow)
    } else if escrow.balance_of(escrow.preferred_token) < payment {
        Some(ErrorCode::InsufficientEscrowBalance)
    } else if !u64_fits(escrow.total_auto_deducted + payment) {
        Some(ErrorCode::CalculationOverflow)
    } else if request.extend_error(months) is Some {
        request.extend_error(months)
    } else {
        pool.credit_fee_error(payment as u64, 0)
    }
}

/// Renews a subscription for `months` from the developer's escrow, in the
/// escrow's preferred token (admin only). When the escrow cannot cover it,
/// the request's failure counter goes up, the subscription is left as it
/// is, and `InsufficientEscrowBalance` is returned. The payment is fee
/// income for the stakers, booked as a subscription payment is. Returns the
/// amount deducted, which the caller moves from the escrow to the reward pool.
pub fn auto_renew_subscription(
    pool: &mut TreasuryPool,
    request: &mut DeployRequest,
    escrow: &mut DeveloperEscrow,
    caller: &Pubkey,
    request_id: [u8; 32],
    months: u32,
    current_time: i64,
) -> (r: Result<u64, ErrorCode>)
    ensures
        r == (match auto_renew_error(*old(pool), *old(request), *old(escrow), *caller, request_id, months) {
            Some(e) => Err::<u64, ErrorCode>(e),
            None => Ok((old(request).monthly_fee * months) as u64),
        }),
        r.is_ok() ==> {
            let payment = (old(request).monthly_fee * months) as u64;
            let token = old(escrow).preferred_token;
            &&& *final(pool) == old(pool).credit_fee_spec(payment, 0)
            &&& *final(request) == (DeployRequest {
                status: DeployRequestStatus::Active,
                ..old(request).extend_spec(months, current_time)
            })
            &&& *final(escrow) == (DeveloperEscrow {
                total_auto_deducted: (old(escrow).total_auto_deducted + payment) as u64,
                last_auto_deduct_at: current_time,
                ..old(escrow).with_balance(token, (old(escrow).balance_of(token) - payment) as u64)
            })
        },
        r == Err::<u64, ErrorCode>(ErrorCode::InsufficientEscrowBalance) ==> *final(pool) == *old(pool) && *final(escrow)
            == *old(escrow) && *final(request) == (DeployRequest {
            auto_renewal_failed_count: if old(request).auto_renewal_failed_count < u8::MAX {
                (old(request).auto_renewal_failed_count + 1) as u8
            } else {
                u8::MAX
            },
            ..*old(request)
        }),
        r.is_err() && r != Err::<u64, ErrorCode>(ErrorCode::InsufficientEscrowBalance) ==> *final(pool) == *old(pool)
            && *final(request) == *old(request) && *final(escrow) == *old(escrow),
{
    if !same_id(&request.request_id, &request_id) {
        return Err(ErrorCode::InvalidRequestId);
    }
    if !escrow.developer.same(&request.developer) || !pool.is_admin(caller) {
        return Err(ErrorCode::Unauthorized);
    }
    if pool.emergency_pause {
        return Err(ErrorCode::ProgramPaused);
    }
    if months == 0 {
        return Err(ErrorCode::InvalidAmount);
    }
    if request.status != DeployRequestStatus::Active && request.status != DeployRequestStatus::SubscriptionExpired
        && request.status != DeployRequestStatus::InGracePeriod {
        return Err(ErrorCode::InvalidRequestStatus);
    }
    if !escrow.auto_renew_enabled || !request.auto_renewal_enabled {
        return Err(ErrorCode::AutoRenewalDisabled);
    }
    let payment_amount = match request.monthly_fee.checked_mul(months as u64) {
        Some(v) => v,
        None => return Err(ErrorCode::CalculationOverflow),
    };
    let token_type = escrow.preferred_token;
    if !escrow.can_auto_deduct(payment_amount, token_type) {
        request.increment_auto_renewal_failed();
        return Err(ErrorCode::InsufficientEscrowBalance);
    }
    let mut e = *escrow;
    let mut q = *request;
    let mut p = *pool;
    e.deduct_balance(payment_amount, token_type, current_time)?;
    q.extend_subscription(months, current_time)?;
    q.status = DeployRequestStatus::Active;
    p.credit_fee_to_pool(payment_amount, 0)?;
    *escrow = e;
    *request = q;
    *pool = p;
    Ok(payment_amount)
}

/// Marks an active request whose paid period has passed as expired; other
/// requests are left as they are. Returns whether the status changed.
pub fn mark_subscription_expired(request: &mut DeployRequest, current_time: i64) -> (r: bool)
    ensures
        r == (old(request).status == DeployRequestStatus::Active && current_time > old(request).subscription_paid_until),
        r ==> *final(request) == (DeployRequest { status: DeployRequestStatus::SubscriptionExpired, ..*old(request) }),
        !r ==> *final(request) == *old(request),
{
    if request.status == DeployRequestStatus::Active && !request.is_subscription_valid(current_time) {
        request.status = DeployRequestStatus::SubscriptionExpired;
        true
    } else {
        false
    }
}

/// The failure of opening a grace period, if any, checked in this order.
pub open spec fn start_grace_error(pool: TreasuryPool, request: DeployRequest, caller: Pubkey, request_id: [u8; 32], now: i64) -> Option<ErrorCode> {
    if request.request_id@ != request_id@ {
        Some(ErrorCode::InvalidRequestId)
    } else if !pool.is_admin_spec(caller) {
        Some(ErrorCode::Unauthorized)
    } else if pool.emergency_pause {
        Some(ErrorCode::ProgramPaused)
    } else if request.status != DeployRequestStatus::SubscriptionExpired {
        Some(ErrorCode::InvalidRequestStatus)
    } else if request.grace_period_end != 0 {
        Some(ErrorCode::AlreadyInGracePeriod)
    } else if now + request.grace_days() * DeployRequest::SECONDS_PER_DAY > i64::MAX {
        Some(ErrorCode::CalculationOverflow)
    } else {
        None
    }
}

/// Opens the grace period of an expired subscription (admin only): 3, 5 or
/// 7 days depending on how many months were ever paid.
pub fn start_grace_period(
    pool: &TreasuryPool,
    request: &mut DeployRequest,
    caller: &Pubkey,
    request_id: [u8; 32],
    current_time: i64,
) -> (r: Result<(), ErrorCode>)
    ensures
        r == (match start_grace_error(*pool, *old(request), *caller, request_id, current_time) {
            Some(e) => Err::<(), ErrorCode>(e),
            None => Ok(()),
        }),
        r.is_ok() ==> *final(request) == (DeployRequest {
            grace_period_days: old(request).grace_days(),
            grace_period_end: (current_time + old(request).grace_days() * DeployRequest::SECONDS_PER_DAY) as i64,
            status: DeployRequestStatus::InGracePeriod,
            ..*old(request)
        }),
        r.is_err() ==> *final(request) == *old(request),
{
    if !same_id(&request.request_id, &request_id) {
        return Err(ErrorCode::InvalidRequestId);
    }
    if !pool.is_admin(caller) {
        return Err(ErrorCode::Unauthorized);
    }
    if pool.emergency_pause {
        return Err(ErrorCode::ProgramPaused);
    }
    if request.status != DeployRequestStatus::SubscriptionExpired {
        return Err(ErrorCode::InvalidRequestStatus);
    }
    if request.grace_period_end != 0 {
        return Err(ErrorCode::AlreadyInGracePeriod);
    }
    request.start_grace_period(current_time)
}

/// Closes a program whose grace period has run out (admin only).
pub fn close_expired_program(
    pool: &TreasuryPool,
    request: &mut DeployRequest,
    managed: &mut ManagedProgram,
    caller: &Pubkey,
    request_id: [u8; 32],
    current_time: i64,
) -> (r: Result<(), ErrorCode>)
    ensures
        r == (if old(request).request_id@ != request_id@ {
            Err::<(), ErrorCode>(ErrorCode::InvalidRequestId)
        } else if !pool.is_admin_spec(*caller) {
            Err::<(), ErrorCode>(ErrorCode::Unauthorized)
        } else if pool.emergency_pause {
            Err::<(), ErrorCode>(ErrorCode::ProgramPaused)
        } else if old(request).status != DeployRequestStatus::InGracePeriod {
            Err::<(), ErrorCode>(ErrorCode::NotInGracePeriod)
        } else if current_time <= old(request).grace_period_end {
            Err::<(), ErrorCode>(ErrorCode::GracePeriodNotExpired)
        } else {
            Ok(())
        }),
        r.is_ok() ==> *final(request) == (DeployRequest { status: DeployRequestStatus::Closed, ..*old(request) })
            && *final(managed) == (ManagedProgram { is_active: false, ..*old(managed) }),
        r.is_err() ==> *final(request) == *old(request) && *final(managed) == *old(managed),
{
    if !same_id(&request.request_id, &request_id) {
        return Err(ErrorCode::InvalidRequestId);
    }
    if !pool.is_admin(caller) {
        return Err(ErrorCode::Unauthorized);
    }
    if pool.emergency_pause {
        return Err(ErrorCode::ProgramPaused);
    }
    if request.status != DeployRequestStatus::InGracePeriod {
        return Err(ErrorCode::NotInGracePeriod);
    }
    if !request.is_grace_period_expired(current_time) {
        return Err(ErrorCode::GracePeriodNotExpired);
    }
    request.status = DeployRequestStatus::Closed;
    managed.is_active = false;
    Ok(())
}

/// The admin marks any request failed and clears its one-time wallet key.
pub fn force_reset_deployment(pool: &TreasuryPool, request: &mut DeployRequest, caller: &Pubkey) -> (r: Result<(), ErrorCode>)
    ensures
        r == (if !pool.is_admin_spec(*caller) {
            Err::<(), ErrorCode>(ErrorCode::Unauthorized)
        } else {
            Ok(())
        }),
        r.is_ok() ==> *final(request) == (DeployRequest {
            status: DeployRequestStatus::Failed,
            ephemeral_key: None,
            ..*old(request)
        }),
        r.is_err() ==> *final(request) == *old(request),
{
    if !pool.is_admin(caller) {
        return Err(ErrorCode::Unauthorized);
    }
    request.status = DeployRequestStatus::Failed;
    request.ephemeral_key = None;
    Ok(())
}

} // verus!
