use vstd::prelude::*;

use crate::backer_deposit::BackerDeposit;
use crate::errors::ErrorCode;
use crate::pubkey::{Pubkey, zero_key};
use crate::treasury_pool::{TreasuryPool, add_u64, sub_u64, u128_fits, u64_fits};
use crate::withdrawal_queue::WithdrawalQueueEntry;

verus! {

/// Lamports kept back from a staker's balance for transaction fees.
pub const TRANSACTION_FEE_ESTIMATE: u64 = 10_000;

/// Whether `pos` is an unused record, never staked into.
pub open spec fn is_new_position(pos: BackerDeposit) -> bool {
    pos.backer@ == zero_key()
}

/// The ledger and position after the bookkeeping that precedes a deposit:
/// an existing position is settled and its duration weight accrued; a new
/// one starts from scratch.
pub open spec fn stake_prepared(pool: TreasuryPool, pos: BackerDeposit, lender: Pubkey, now: i64) -> (TreasuryPool, BackerDeposit) {
    if is_new_position(pos) {
        (pool, BackerDeposit::fresh(lender, pos.bump, now))
    } else {
        let settled = pos.settle_spec(pool.reward_per_share);
        (
            TreasuryPool {
                total_stake_duration_weight: (pool.total_stake_duration_weight + settled.weight_delta(now as int)) as u128,
                ..pool
            },
            BackerDeposit { is_active: true, ..settled.duration_spec(now) },
        )
    }
}

/// Rewards that accumulated while nobody was staked and are not yet held
/// back; a first deposit moves them to `pending_undistributed_rewards`.
pub open spec fn unassigned_rewards(pool: TreasuryPool) -> int {
    if pool.total_deposited == 0 && pool.reward_pool_balance > pool.pending_undistributed_rewards {
        pool.reward_pool_balance - pool.pending_undistributed_rewards
    } else {
        0
    }
}

/// The state after a successful stake of `amount`.
pub open spec fn stake_spec(pool: TreasuryPool, pos: BackerDeposit, lender: Pubkey, amount: u64, now: i64) -> (TreasuryPool, BackerDeposit) {
    let (pool_mid, pos_mid) = stake_prepared(pool, pos, lender, now);
    let deposited = (pos_mid.deposited_amount + amount) as u64;
    (
        TreasuryPool {
            pending_undistributed_rewards: (pool_mid.pending_undistributed_rewards + unassigned_rewards(pool_mid)) as u64,
            total_deposited: (pool_mid.total_deposited + amount) as u64,
            liquid_balance: (pool_mid.liquid_balance + amount) as u64,
            ..pool_mid
        },
        BackerDeposit { deposited_amount: deposited, reward_debt: (deposited * pool_mid.reward_per_share) as u128, ..pos_mid },
    )
}

/// The failure of a stake, if any, checked in this order.
pub open spec fn stake_error(
    pool: TreasuryPool,
    pos: BackerDeposit,
    lender: Pubkey,
    amount: u64,
    lender_lamports: u64,
    rent_exemption: u64,
    now: i64,
) -> Option<ErrorCode> {
    let rent = if is_new_position(pos) { rent_exemption as int } else { 0 };
    let (pool_mid, pos_mid) = stake_prepared(pool, pos, lender, now);
    if pool.emergency_pause {
        Some(ErrorCode::ProgramPaused)
    } else if amount == 0 {
        Some(ErrorCode::InvalidAmount)
    } else if !is_new_position(pos) && pos.backer@ != lender@ {
        Some(ErrorCode::Unauthorized)
    } else if !u64_fits(amount + rent + TRANSACTION_FEE_ESTIMATE) {
        Some(ErrorCode::CalculationOverflow)
    } else if lender_lamports < amount + rent + TRANSACTION_FEE_ESTIMATE {
        Some(ErrorCode::InsufficientDeposit)
    } else if !is_new_position(pos) && (!pos.settle_fits(pool.reward_per_share) || !pos.settle_spec(
        pool.reward_per_share,
    ).duration_fits(now as int) || !u128_fits(
        pool.total_stake_duration_weight + pos.settle_spec(pool.reward_per_share).weight_delta(now as int),
    )) {
        Some(ErrorCode::CalculationOverflow)
    } else if !u64_fits(pos_mid.deposited_amount + amount) || !u64_fits(pool_mid.total_deposited + amount) || !u64_fits(
        pool_mid.liquid_balance + amount,
    ) || !u128_fits((pos_mid.deposited_amount + amount) * pool_mid.reward_per_share) {
        Some(ErrorCode::CalculationOverflow)
    } else {
        None
    }
}

/// Deposits `amount` lamports of `lender` into the pool.
///
/// `lender_lamports` is the lender's balance and `rent_exemption` the rent
/// reserve a new position record needs. Accrued rewards are settled first;
/// rewards that arrived while nothing was staked are held back for gradual
/// distribution instead of going to this depositor. On success the caller
/// moves `amount` from the lender into the treasury.
pub fn stake_sol(
    pool: &mut TreasuryPool,
    stake: &mut BackerDeposit,
    lender: &Pubkey,
    amount: u64,
    lender_lamports: u64,
    rent_exemption: u64,
    current_time: i64,
) -> (r: Result<(), ErrorCode>)
    ensures
        r == (match stake_error(*old(pool), *old(stake), *lender, amount, lender_lamports, rent_exemption, current_time) {
            Some(e) => Err::<(), ErrorCode>(e),
            None => Ok(()),
        }),
        r.is_ok() ==> (*final(pool), *final(stake)) == stake_spec(*old(pool), *old(stake), *lender, amount, current_time),
        r.is_err() ==> *final(pool) == *old(pool) && *final(stake) == *old(stake),
{
    if pool.emergency_pause {
        return Err(ErrorCode::ProgramPaused);
    }
    if amount == 0 {
        return Err(ErrorCode::InvalidAmount);
    }
    let is_new = stake.backer.is_zero();
    if !is_new && !stake.backer.same(lender) {
        return Err(ErrorCode::Unauthorized);
    }
    let rent = if is_new { rent_exemption } else { 0 };
    let with_rent = add_u64(amount, rent)?;
    let total_required = add_u64(with_rent, TRANSACTION_FEE_ESTIMATE)?;
    if lender_lamports < total_required {
        return Err(ErrorCode::InsufficientDeposit);
    }
    let mut p = *pool;
    let mut s = *stake;
    if is_new {
        s = BackerDeposit::new(*lender, stake.bump, current_time);
    } else {
        s.settle_pending_rewards(p.reward_per_share)?;
        let delta = s.update_duration_weight(current_time)?;
        p.update_stake_duration_weight(delta)?;
        s.is_active = true;
    }
    if p.total_deposited == 0 && p.reward_pool_balance > p.pending_undistributed_rewards {
        p.pending_undistributed_rewards = p.reward_pool_balance;
    }
    s.deposited_amount = add_u64(s.deposited_amount, amount)?;
    p.total_deposited = add_u64(p.total_deposited, amount)?;
    p.liquid_balance = add_u64(p.liquid_balance, amount)?;
    s.update_reward_debt(p.reward_per_share)?;
    *pool = p;
    *stake = s;
    Ok(())
}

/// Drift between recorded and observed liquidity beyond which the recorded
/// value is resynchronised (0.001 SOL).
pub const LIQUIDITY_DRIFT_TOLERANCE: u64 = 1_000_000;

/// Lamports of the treasury that can be paid out: its balance minus the rent reserve.
pub fn available_liquidity(treasury_lamports: u64, rent_exemption: u64) -> (r: Result<u64, ErrorCode>)
    ensures
        r == (if rent_exemption <= treasury_lamports {
            Ok::<u64, ErrorCode>((treasury_lamports - rent_exemption) as u64)
        } else {
            Err::<u64, ErrorCode>(ErrorCode::CalculationOverflow)
        }),
{
    sub_u64(treasury_lamports, rent_exemption)
}

/// The recorded liquid balance, replaced by the observed one when they drift
/// apart by more than the tolerance.
pub open spec fn resynced_liquidity(recorded: u64, observed: int) -> u64 {
    let diff = if observed >= recorded { observed - recorded } else { recorded - observed };
    if diff > LIQUIDITY_DRIFT_TOLERANCE {
        observed as u64
    } else {
        recorded
    }
}

/// The position after `amount` of principal left it: it is deactivated with
/// a cleared snapshot at zero, otherwise the snapshot is retaken at `rps`.
pub open spec fn principal_reduced(pos: BackerDeposit, amount: u64, rps: u128) -> BackerDeposit {
    let deposited = (pos.deposited_amount - amount) as u64;
    if deposited == 0 {
        BackerDeposit { deposited_amount: 0, is_active: false, reward_debt: 0, ..pos }
    } else {
        BackerDeposit { deposited_amount: deposited, is_active: true, reward_debt: (deposited * rps) as u128, ..pos }
    }
}

/// Whether the snapshot retaken after `amount` left the position fits.
pub open spec fn reduction_fits(pos: BackerDeposit, amount: u64, rps: u128) -> bool {
    pos.deposited_amount - amount == 0 || u128_fits((pos.deposited_amount - amount) * rps)
}

/// Takes `amount` off a settled position's principal.
fn reduce_principal(s: &mut BackerDeposit, amount: u64, rps: u128) -> (r: Result<(), ErrorCode>)
    requires
        amount <= old(s).deposited_amount,
    ensures
        r == (if reduction_fits(*old(s), amount, rps) {
            Ok::<(), ErrorCode>(())
        } else {
            Err::<(), ErrorCode>(ErrorCode::CalculationOverflow)
        }),
        r.is_ok() ==> *final(s) == principal_reduced(*old(s), amount, rps),
        r.is_err() ==> *final(s) == *old(s),
{
    let before = *s;
    s.deposited_amount = s.deposited_amount - amount;
    if s.deposited_amount == 0 {
        s.is_active = false;
        s.reward_debt = 0;
    } else {
        s.is_active = true;
        match s.update_reward_debt(rps) {
            Ok(()) => {},
            Err(e) => {
                *s = before;
                return Err(e);
            },
        }
    }
    Ok(())
}

/// The position and ledger after settlement and duration accrual at `now`.
pub open spec fn settled_with_weight(pool: TreasuryPool, pos: BackerDeposit, now: i64) -> (TreasuryPool, BackerDeposit) {
    let settled = pos.settle_spec(pool.reward_per_share);
    (
        TreasuryPool {
            total_stake_duration_weight: (pool.total_stake_duration_weight + settled.weight_delta(now as int)) as u128,
            ..pool
        },
        settled.duration_spec(now),
    )
}

/// Whether settlement and duration accrual at `now` fit.
pub open spec fn settle_with_weight_fits(pool: TreasuryPool, pos: BackerDeposit, now: i64) -> bool {
    pos.settle_fits(pool.reward_per_share) && pos.settle_spec(pool.reward_per_share).duration_fits(now as int)
        && u128_fits(
        pool.total_stake_duration_weight + pos.settle_spec(pool.reward_per_share).weight_delta(now as int),
    )
}

/// Settles a position and accrues its duration weight into both records.
fn settle_with_weight(p: &mut TreasuryPool, s: &mut BackerDeposit, now: i64) -> (r: Result<(), ErrorCode>)
    ensures
        r == (if settle_with_weight_fits(*old(p), *old(s), now) {
            Ok::<(), ErrorCode>(())
        } else {
            Err::<(), ErrorCode>(ErrorCode::CalculationOverflow)
        }),
        r.is_ok() ==> (*final(p), *final(s)) == settled_with_weight(*old(p), *old(s), now),
        r.is_err() ==> *final(p) == *old(p) && *final(s) == *old(s),
{
    let mut pos_mid = *s;
    pos_mid.settle_pending_rewards(p.reward_per_share)?;
    let delta = pos_mid.update_duration_weight(now)?;
    p.update_stake_duration_weight(delta)?;
    *s = pos_mid;
    Ok(())
}

/// The state after a successful unstake of `amount` with `available` lamports observed.
pub open spec fn unstake_spec(pool: TreasuryPool, pos: BackerDeposit, amount: u64, available: int, now: i64) -> (TreasuryPool, BackerDeposit) {
    let (pool_mid, pos_mid) = settled_with_weight(pool, pos, now);
    let liquid = resynced_liquidity(pool_mid.liquid_balance, available);
    (
        TreasuryPool {
            total_deposited: (pool_mid.total_deposited - amount) as u64,
            liquid_balance: (liquid - amount) as u64,
            ..pool_mid
        },
        principal_reduced(pos_mid, amount, pool_mid.reward_per_share),
    )
}

/// The failure of an unstake, if any, checked in this order.
pub open spec fn unstake_error(
    pool: TreasuryPool,
    pos: BackerDeposit,
    lender: Pubkey,
    amount: u64,
    treasury_lamports: u64,
    rent_exemption: u64,
    now: i64,
) -> Option<ErrorCode> {
    let (pool_mid, pos_mid) = settled_with_weight(pool, pos, now);
    let available = treasury_lamports - rent_exemption;
    if pos.backer@ != lender@ {
        Some(ErrorCode::Unauthorized)
    } else if pool.emergency_pause {
        Some(ErrorCode::ProgramPaused)
    } else if amount == 0 {
        Some(ErrorCode::InvalidAmount)
    } else if amount > pos.deposited_amount {
        Some(ErrorCode::InsufficientStake)
    } else if pos.queued_withdrawal > 0 {
        Some(ErrorCode::WithdrawalAlreadyQueued)
    } else if rent_exemption > treasury_lamports {
        Some(ErrorCode::CalculationOverflow)
    } else if available < amount {
        Some(ErrorCode::InsufficientLiquidBalance)
    } else if !settle_with_weight_fits(pool, pos, now) || !reduction_fits(pos_mid, amount, pool_mid.reward_per_share)
        || pool_mid.total_deposited < amount || resynced_liquidity(pool_mid.liquid_balance, available) < amount {
        Some(ErrorCode::CalculationOverflow)
    } else {
        None
    }
}

/// Withdraws `amount` of principal while the treasury holds enough liquidity.
///
/// `treasury_lamports` is the treasury's observed balance and
/// `rent_exemption` its rent reserve. A staker with a queued withdrawal must
/// wait for the queue. Rewards are settled first and survive a full exit. On
/// success the caller moves `amount` from the treasury to the lender.
pub fn unstake_sol(
    pool: &mut TreasuryPool,
    stake: &mut BackerDeposit,
    lender: &Pubkey,
    amount: u64,
    treasury_lamports: u64,
    rent_exemption: u64,
    current_time: i64,
) -> (r: Result<(), ErrorCode>)
    ensures
        r == (match unstake_error(*old(pool), *old(stake), *lender, amount, treasury_lamports, rent_exemption, current_time) {
            Some(e) => Err::<(), ErrorCode>(e),
            None => Ok(()),
        }),
        r.is_ok() ==> (*final(pool), *final(stake)) == unstake_spec(
            *old(pool),
            *old(stake),
            amount,
            treasury_lamports - rent_exemption,
            current_time,
        ),
        r.is_err() ==> *final(pool) == *old(pool) && *final(stake) == *old(stake),
{
    if !stake.backer.same(lender) {
        return Err(ErrorCode::Unauthorized);
    }
    if pool.emergency_pause {
        return Err(ErrorCode::ProgramPaused);
    }
    if amount == 0 {
        return Err(ErrorCode::InvalidAmount);
    }
    if amount > stake.deposited_amount {
        return Err(ErrorCode::InsufficientStake);
    }
    if stake.queued_withdrawal > 0 {
        return Err(ErrorCode::WithdrawalAlreadyQueued);
    }
    let available = available_liquidity(treasury_lamports, rent_exemption)?;
    if available < amount {
        return Err(ErrorCode::InsufficientLiquidBalance);
    }
    let mut p = *pool;
    let mut s = *stake;
    settle_with_weight(&mut p, &mut s, current_time)?;
    let diff = if available >= p.liquid_balance { available - p.liquid_balance } else { p.liquid_balance - available };
    if diff > LIQUIDITY_DRIFT_TOLERANCE {
        p.liquid_balance = available;
    }
    reduce_principal(&mut s, amount, p.reward_per_share)?;
    p.total_deposited = sub_u64(p.total_deposited, amount)?;
    p.liquid_balance = sub_u64(p.liquid_balance, amount)?;
    *pool = p;
    *stake = s;
    Ok(())
}

/// The state after an emergency unstake: rewards are settled, duration
/// bookkeeping is skipped.
pub open spec fn emergency_unstake_spec(pool: TreasuryPool, pos: BackerDeposit, amount: u64) -> (TreasuryPool, BackerDeposit) {
    let pos_mid = pos.settle_spec(pool.reward_per_share);
    (
        TreasuryPool {
            total_deposited: (pool.total_deposited - amount) as u64,
            liquid_balance: (pool.liquid_balance - amount) as u64,
            ..pool
        },
        queue_clamped(principal_reduced(pos_mid, amount, pool.reward_per_share)),
    )
}

/// The position with its queued withdrawal cut down to the principal left.
pub open spec fn queue_clamped(pos: BackerDeposit) -> BackerDeposit {
    if pos.queued_withdrawal > pos.deposited_amount {
        BackerDeposit { queued_withdrawal: pos.deposited_amount, ..pos }
    } else {
        pos
    }
}

/// The failure of an emergency unstake, if any, checked in this order.
pub open spec fn emergency_unstake_error(
    pool: TreasuryPool,
    pos: BackerDeposit,
    lender: Pubkey,
    amount: u64,
    treasury_lamports: u64,
    rent_exemption: u64,
) -> Option<ErrorCode> {
    if pos.backer@ != lender@ {
        Some(ErrorCode::Unauthorized)
    } else if amount == 0 {
        Some(ErrorCode::InvalidAmount)
    } else if amount > pos.deposited_amount {
        Some(ErrorCode::InsufficientStake)
    } else if rent_exemption > treasury_lamports {
        Some(ErrorCode::CalculationOverflow)
    } else if treasury_lamports - rent_exemption < amount {
        Some(ErrorCode::InsufficientLiquidBalance)
    } else if !pos.settle_fits(pool.reward_per_share) || !reduction_fits(
        pos.settle_spec(pool.reward_per_share),
        amount,
        pool.reward_per_share,
    ) || pool.total_deposited < amount || pool.liquid_balance < amount {
        Some(ErrorCode::CalculationOverflow)
    } else {
        None
    }
}

/// Panic-button withdrawal of principal: works while the pool is paused and
/// ignores the queue, but still needs the liquidity. A queued withdrawal is
/// cut down to the principal that is left. On success the caller
/// moves `amount` from the treasury to the lender.
pub fn emergency_unstake_sol(
    pool: &mut TreasuryPool,
    stake: &mut BackerDeposit,
    lender: &Pubkey,
    amount: u64,
    treasury_lamports: u64,
    rent_exemption: u64,
) -> (r: Result<(), ErrorCode>)
    ensures
        r == (match emergency_unstake_error(*old(pool), *old(stake), *lender, amount, treasury_lamports, rent_exemption) {
            Some(e) => Err::<(), ErrorCode>(e),
            None => Ok(()),
        }),
        r.is_ok() ==> (*final(pool), *final(stake)) == emergency_unstake_spec(*old(pool), *old(stake), amount),
        r.is_err() ==> *final(pool) == *old(pool) && *final(stake) == *old(stake),
{
    if !stake.backer.same(lender) {
        return Err(ErrorCode::Unauthorized);
    }
    if amount == 0 {
        return Err(ErrorCode::InvalidAmount);
    }
    if amount > stake.deposited_amount {
        return Err(ErrorCode::InsufficientStake);
    }
    let available = available_liquidity(treasury_lamports, rent_exemption)?;
    if available < amount {
        return Err(ErrorCode::InsufficientLiquidBalance);
    }
    let mut p = *pool;
    let mut s = *stake;
    s.settle_pending_rewards(p.reward_per_share)?;
    reduce_principal(&mut s, amount, p.reward_per_share)?;
    p.total_deposited = sub_u64(p.total_deposited, amount)?;
    p.liquid_balance = sub_u64(p.liquid_balance, amount)?;
    if s.queued_withdrawal > s.deposited_amount {
        s.queued_withdrawal = s.deposited_amount;
    }
    *pool = p;
    *stake = s;
    Ok(())
}

/// The ledger and position with duration weight accrued up to `now`.
pub open spec fn weighted(pool: TreasuryPool, pos: BackerDeposit, now: i64) -> (TreasuryPool, BackerDeposit) {
    (
        TreasuryPool {
            total_stake_duration_weight: (pool.total_stake_duration_weight + pos.weight_delta(now as int)) as u128,
            ..pool
        },
        pos.duration_spec(now),
    )
}

/// The base reward (settled plus accrued) and the duration bonus of a claim at `now`.
pub open spec fn claim_parts(pool: TreasuryPool, pos: BackerDeposit, now: i64) -> (int, int) {
    let (pool_mid, pos_mid) = weighted(pool, pos, now);
    (pos_mid.claimable(pool_mid.reward_per_share), pool_mid.duration_bonus(pos_mid.stake_duration_weight as int))
}

/// Everything a claim at `now` pays out.
pub open spec fn claim_total(pool: TreasuryPool, pos: BackerDeposit, now: i64) -> int {
    claim_parts(pool, pos, now).0 + claim_parts(pool, pos, now).1
}

/// The state after a successful claim.
pub open spec fn claim_spec(pool: TreasuryPool, pos: BackerDeposit, now: i64) -> (TreasuryPool, BackerDeposit) {
    let (pool_mid, pos_mid) = weighted(pool, pos, now);
    let bonus = claim_parts(pool, pos, now).1;
    let total = claim_total(pool, pos, now);
    (
        TreasuryPool {
            reward_pool_balance: (pool_mid.reward_pool_balance - total) as u64,
            total_claimed_rewards: (pool_mid.total_claimed_rewards + total) as u64,
            pending_undistributed_rewards: if bonus <= pool_mid.pending_undistributed_rewards {
                (pool_mid.pending_undistributed_rewards - bonus) as u64
            } else {
                0
            },
            ..pool_mid
        },
        BackerDeposit {
            claimed_total: (pos_mid.claimed_total + total) as u64,
            pending_rewards: 0,
            reward_debt: (pos_mid.deposited_amount * pool_mid.reward_per_share) as u128,
            stake_duration_weight: 0,
            last_action_at: now,
            ..pos_mid
        },
    )
}

/// The failure of a claim, if any, checked in this order.
pub open spec fn claim_error(pool: TreasuryPool, pos: BackerDeposit, lender: Pubkey, reward_pool_lamports: u64, now: i64) -> Option<ErrorCode> {
    let (pool_mid, pos_mid) = weighted(pool, pos, now);
    let w = pos_mid.stake_duration_weight as int;
    let total = claim_total(pool, pos, now);
    if pos.backer@ != lender@ {
        Some(ErrorCode::Unauthorized)
    } else if pool.emergency_pause {
        Some(ErrorCode::ProgramPaused)
    } else if !pos.duration_fits(now as int) || !u128_fits(pool.total_stake_duration_weight + pos.weight_delta(now as int))
        || !pos_mid.settle_fits(pool_mid.reward_per_share) || (pool_mid.total_stake_duration_weight != 0
        && pool_mid.pending_undistributed_rewards != 0 && (!u128_fits(pool_mid.pending_undistributed_rewards * w) || !u64_fits(
        pool_mid.duration_bonus(w),
    ))) || !u64_fits(total) {
        Some(ErrorCode::CalculationOverflow)
    } else if total == 0 {
        Some(ErrorCode::NoRewardsToClaim)
    } else if pool_mid.reward_pool_balance < total || reward_pool_lamports < total || total
        > pool_mid.protected_rewards() {
        Some(ErrorCode::InsufficientTreasuryFunds)
    } else if !u64_fits(pos_mid.claimed_total + total) || !u64_fits(pool_mid.total_claimed_rewards + total) {
        Some(ErrorCode::CalculationOverflow)
    } else {
        None
    }
}

/// Pays out a staker's settled and accrued rewards plus the duration bonus,
/// then restarts the staker's duration weight. `reward_pool_lamports` is
/// the reward pool's observed balance. A claim never pays more than the
/// protected rewards (credited and not yet claimed), so lifetime claims stay
/// within lifetime credits. Returns the amount the caller moves from the
/// reward pool to the staker.
pub fn claim_rewards(
    pool: &mut TreasuryPool,
    stake: &mut BackerDeposit,
    lender: &Pubkey,
    reward_pool_lamports: u64,
    current_time: i64,
) -> (r: Result<u64, ErrorCode>)
    ensures
        r == (match claim_error(*old(pool), *old(stake), *lender, reward_pool_lamports, current_time) {
            Some(e) => Err::<u64, ErrorCode>(e),
            None => Ok(claim_total(*old(pool), *old(stake), current_time) as u64),
        }),
        r.is_ok() ==> (*final(pool), *final(stake)) == claim_spec(*old(pool), *old(stake), current_time),
        r.is_err() ==> *final(pool) == *old(pool) && *final(stake) == *old(stake),
{
    if !stake.backer.same(lender) {
        return Err(ErrorCode::Unauthorized);
    }
    if pool.emergency_pause {
        return Err(ErrorCode::ProgramPaused);
    }
    let mut p = *pool;
    let mut s = *stake;
    let delta = s.update_duration_weight(current_time)?;
    p.update_stake_duration_weight(delta)?;
    let base = s.calculate_claimable_rewards(p.reward_per_share)?;
    let bonus = p.calculate_duration_bonus(s.stake_duration_weight)?;
    let total = add_u64(base, bonus)?;
    if total == 0 {
        return Err(ErrorCode::NoRewardsToClaim);
    }
    if p.reward_pool_balance < total || reward_pool_lamports < total || total > p.get_protected_rewards() {
        return Err(ErrorCode::InsufficientTreasuryFunds);
    }
    s.claimed_total = add_u64(s.claimed_total, total)?;
    p.total_claimed_rewards = add_u64(p.total_claimed_rewards, total)?;
    s.pending_rewards = 0;
    s.update_reward_debt(p.reward_per_share)?;
    p.reward_pool_balance = p.reward_pool_balance - total;
    p.pending_undistributed_rewards = p.pending_undistributed_rewards.saturating_sub(bonus);
    s.reset_duration_weight(current_time);
    *pool = p;
    *stake = s;
    Ok(total)
}

/// The failure of queuing a withdrawal, if any, checked in this order.
pub open spec fn queue_withdrawal_error(pool: TreasuryPool, pos: BackerDeposit, staker: Pubkey, amount: u64) -> Option<ErrorCode> {
    if pos.backer@ != staker@ {
        Some(ErrorCode::Unauthorized)
    } else if !pos.is_active {
        Some(ErrorCode::InsufficientStake)
    } else if pool.emergency_pause {
        Some(ErrorCode::ProgramPaused)
    } else if amount == 0 {
        Some(ErrorCode::InvalidAmount)
    } else if amount > pos.deposited_amount {
        Some(ErrorCode::InsufficientStake)
    } else if pos.queued_withdrawal > 0 {
        Some(ErrorCode::WithdrawalAlreadyQueued)
    } else if pool.withdrawal_queue_tail == u32::MAX || !u64_fits(pool.queued_withdrawal_amount + amount) {
        Some(ErrorCode::CalculationOverflow)
    } else {
        None
    }
}

/// Queues a withdrawal of `amount` for when liquidity is short, at the
/// position the queue's tail counter gives. The principal stays in place
/// until the entry is processed. Returns the new queue entry.
pub fn queue_withdrawal(
    pool: &mut TreasuryPool,
    stake: &mut BackerDeposit,
    staker: &Pubkey,
    amount: u64,
    bump: u8,
    current_time: i64,
) -> (r: Result<WithdrawalQueueEntry, ErrorCode>)
    ensures
        match queue_withdrawal_error(*old(pool), *old(stake), *staker, amount) {
            Some(e) => r == Err::<WithdrawalQueueEntry, ErrorCode>(e) && *final(pool) == *old(pool) && *final(stake)
                == *old(stake),
            None => r == Ok::<WithdrawalQueueEntry, ErrorCode>(
                WithdrawalQueueEntry {
                    position: old(pool).withdrawal_queue_tail,
                    staker: *staker,
                    amount,
                    queued_at: current_time,
                    processed: false,
                    amount_withdrawn: 0,
                    processed_at: 0,
                    bump,
                },
            ) && *final(pool) == (TreasuryPool {
                withdrawal_queue_tail: (old(pool).withdrawal_queue_tail + 1) as u32,
                queued_withdrawal_amount: (old(pool).queued_withdrawal_amount + amount) as u64,
                ..*old(pool)
            }) && *final(stake) == (BackerDeposit {
                queued_withdrawal: amount,
                queue_position: old(pool).withdrawal_queue_tail,
                queued_at: current_time,
                ..*old(stake)
            }),
        },
{
    if !stake.backer.same(staker) {
        return Err(ErrorCode::Unauthorized);
    }
    if !stake.is_active {
        return Err(ErrorCode::InsufficientStake);
    }
    if pool.emergency_pause {
        return Err(ErrorCode::ProgramPaused);
    }
    if amount == 0 {
        return Err(ErrorCode::InvalidAmount);
    }
    if amount > stake.deposited_amount {
        return Err(ErrorCode::InsufficientStake);
    }
    if stake.has_queued_withdrawal() {
        return Err(ErrorCode::WithdrawalAlreadyQueued);
    }
    let mut p = *pool;
    let mut s = *stake;
    let position = p.withdrawal_queue_tail;
    s.queue_withdrawal(amount, position, current_time)?;
    p.add_to_withdrawal_queue(amount)?;
    *pool = p;
    *stake = s;
    Ok(WithdrawalQueueEntry::new(position, *staker, amount, current_time, bump))
}

/// The failure of cancelling a queued withdrawal, if any, checked in this order.
pub open spec fn cancel_queued_error(entry: WithdrawalQueueEntry, pos: BackerDeposit, staker: Pubkey) -> Option<ErrorCode> {
    if entry.staker@ != staker@ {
        Some(ErrorCode::Unauthorized)
    } else if entry.processed {
        Some(ErrorCode::WithdrawalAlreadyProcessed)
    } else if pos.backer@ != staker@ {
        Some(ErrorCode::Unauthorized)
    } else if pos.queued_withdrawal == 0 {
        Some(ErrorCode::NoQueuedWithdrawal)
    } else if entry.position != pos.queue_position {
        Some(ErrorCode::InvalidQueuePosition)
    } else {
        None
    }
}

/// A staker withdraws their own unprocessed queue entry. The principal is
/// untouched; the queued amounts are cleared. Returns the amount that was queued.
pub fn cancel_queued_withdrawal(
    pool: &mut TreasuryPool,
    entry: &mut WithdrawalQueueEntry,
    stake: &mut BackerDeposit,
    staker: &Pubkey,
    current_time: i64,
) -> (r: Result<u64, ErrorCode>)
    ensures
        match cancel_queued_error(*old(entry), *old(stake), *staker) {
            Some(e) => r == Err::<u64, ErrorCode>(e) && *final(pool) == *old(pool) && *final(entry) == *old(entry)
                && *final(stake) == *old(stake),
            None => r == Ok::<u64, ErrorCode>(old(stake).queued_withdrawal) && *final(pool) == (TreasuryPool {
                queued_withdrawal_amount: if old(entry).remaining() <= old(pool).queued_withdrawal_amount {
                    (old(pool).queued_withdrawal_amount - old(entry).remaining()) as u64
                } else {
                    0
                },
                ..*old(pool)
            }) && *final(entry) == (WithdrawalQueueEntry {
                processed: true,
                processed_at: current_time,
                ..*old(entry)
            }) && *final(stake) == (BackerDeposit { queued_withdrawal: 0, queued_at: 0, ..*old(stake) }),
        },
{
    if !entry.staker.same(staker) {
        return Err(ErrorCode::Unauthorized);
    }
    if entry.processed {
        return Err(ErrorCode::WithdrawalAlreadyProcessed);
    }
    if !stake.backer.same(staker) {
        return Err(ErrorCode::Unauthorized);
    }
    if !stake.has_queued_withdrawal() {
        return Err(ErrorCode::NoQueuedWithdrawal);
    }
    if entry.position != stake.queue_position {
        return Err(ErrorCode::InvalidQueuePosition);
    }
    let amount_to_cancel = entry.get_remaining_amount();
    let _ = pool.process_queued_withdrawal(amount_to_cancel);
    entry.cancel(current_time);
    stake.cancel_queued_withdrawal()
}

/// What one processing step pays: what the treasury can spare, up to what
/// the entry still asks.
pub open spec fn queue_payout(entry: WithdrawalQueueEntry, treasury_lamports: u64, rent_exemption: u64) -> int {
    entry.payout((treasury_lamports - rent_exemption) as u64)
}

/// The state after one successful processing step of a queue entry.
pub open spec fn process_queue_spec(
    pool: TreasuryPool,
    entry: WithdrawalQueueEntry,
    pos: BackerDeposit,
    queue_position: u32,
    paid: u64,
    now: i64,
) -> (TreasuryPool, WithdrawalQueueEntry, BackerDeposit) {
    let (pool_mid, pos_mid) = settled_with_weight(pool, pos, now);
    let pos_end = principal_reduced(pos_mid, paid, pool_mid.reward_per_share);
    let entry_twice = entry.process_spec(paid, now);
    (
        TreasuryPool {
            total_deposited: (pool_mid.total_deposited - paid) as u64,
            liquid_balance: (pool_mid.liquid_balance - paid) as u64,
            queued_withdrawal_amount: if paid <= pool_mid.queued_withdrawal_amount {
                (pool_mid.queued_withdrawal_amount - paid) as u64
            } else {
                0
            },
            withdrawal_queue_head: if entry_twice.processed && queue_position == pool_mid.withdrawal_queue_head {
                (pool_mid.withdrawal_queue_head + 1) as u32
            } else {
                pool_mid.withdrawal_queue_head
            },
            ..pool_mid
        },
        entry_twice,
        BackerDeposit {
            queued_withdrawal: if paid <= pos_end.queued_withdrawal {
                (pos_end.queued_withdrawal - paid) as u64
            } else {
                0
            },
            ..pos_end
        },
    )
}

/// The failure of a processing step, if any, checked in this order.
pub open spec fn process_queue_error(
    pool: TreasuryPool,
    entry: WithdrawalQueueEntry,
    pos: BackerDeposit,
    caller: Pubkey,
    queue_position: u32,
    treasury_lamports: u64,
    rent_exemption: u64,
    now: i64,
) -> Option<ErrorCode> {
    let (pool_mid, pos_mid) = settled_with_weight(pool, pos, now);
    let paid = queue_payout(entry, treasury_lamports, rent_exemption);
    let entry_twice = entry.process_spec(paid as u64, now);
    if entry.position != queue_position || queue_position >= pool.withdrawal_queue_tail {
        Some(ErrorCode::InvalidQueuePosition)
    } else if entry.processed {
        Some(ErrorCode::WithdrawalAlreadyProcessed)
    } else if pos.backer@ != entry.staker@ {
        Some(ErrorCode::Unauthorized)
    } else if !pool.is_admin_spec(caller) && !pool.is_guardian_spec(caller) {
        Some(ErrorCode::Unauthorized)
    } else if !entry.is_pending_spec() {
        Some(ErrorCode::WithdrawalAlreadyProcessed)
    } else if rent_exemption > treasury_lamports {
        Some(ErrorCode::CalculationOverflow)
    } else if treasury_lamports - rent_exemption == 0 {
        Some(ErrorCode::InsufficientLiquidBalance)
    } else if !settle_with_weight_fits(pool, pos, now) || paid > pos_mid.deposited_amount || !reduction_fits(
        pos_mid,
        paid as u64,
        pool_mid.reward_per_share,
    ) || pool_mid.total_deposited < paid || pool_mid.liquid_balance < paid || (entry_twice.processed && queue_position
        == pool_mid.withdrawal_queue_head && pool_mid.withdrawal_queue_head == u32::MAX) {
        Some(ErrorCode::CalculationOverflow)
    } else {
        None
    }
}

/// Pays out as much of a queued withdrawal as the treasury can spare
/// (admin or guardian only; one entry per call). The paid part leaves the
/// staker's principal and the totals; the queue head advances once the
/// entry at the head is fully paid. Entries exist only below the queue's
/// tail, so a position at or past it is refused. Returns the amount the
/// caller moves from the treasury to the staker.
pub fn process_withdrawal_queue(
    pool: &mut TreasuryPool,
    entry: &mut WithdrawalQueueEntry,
    stake: &mut BackerDeposit,
    caller: &Pubkey,
    queue_position: u32,
    treasury_lamports: u64,
    rent_exemption: u64,
    current_time: i64,
) -> (r: Result<u64, ErrorCode>)
    ensures
        match process_queue_error(
            *old(pool),
            *old(entry),
            *old(stake),
            *caller,
            queue_position,
            treasury_lamports,
            rent_exemption,
            current_time,
        ) {
            Some(e) => r == Err::<u64, ErrorCode>(e) && *final(pool) == *old(pool) && *final(entry) == *old(entry)
                && *final(stake) == *old(stake),
            None => {
                let paid = queue_payout(*old(entry), treasury_lamports, rent_exemption);
                &&& r == Ok::<u64, ErrorCode>(paid as u64)
                &&& paid > 0
                &&& (*final(pool), *final(entry), *final(stake)) == process_queue_spec(
                    *old(pool),
                    *old(entry),
                    *old(stake),
                    queue_position,
                    paid as u64,
                    current_time,
                )
            },
        },
        old(pool).withdrawal_queue_head <= old(pool).withdrawal_queue_tail ==> final(pool).withdrawal_queue_head
            <= final(pool).withdrawal_queue_tail,
{
    if entry.position != queue_position || queue_position >= pool.withdrawal_queue_tail {
        return Err(ErrorCode::InvalidQueuePosition);
    }
    if entry.processed {
        return Err(ErrorCode::WithdrawalAlreadyProcessed);
    }
    if !stake.backer.same(&entry.staker) {
        return Err(ErrorCode::Unauthorized);
    }
    if !pool.is_admin_or_guardian(caller) {
        return Err(ErrorCode::Unauthorized);
    }
    if !entry.is_pending() {
        return Err(ErrorCode::WithdrawalAlreadyProcessed);
    }
    let available = available_liquidity(treasury_lamports, rent_exemption)?;
    if available == 0 {
        return Err(ErrorCode::InsufficientLiquidBalance);
    }
    let remaining = entry.get_remaining_amount();
    let transfer_amount = if available <= remaining { available } else { remaining };
    let mut p = *pool;
    let mut s = *stake;
    let mut e = *entry;
    settle_with_weight(&mut p, &mut s, current_time)?;
    if transfer_amount > s.deposited_amount {
        return Err(ErrorCode::CalculationOverflow);
    }
    reduce_principal(&mut s, transfer_amount, p.reward_per_share)?;
    let total_deposited = sub_u64(p.total_deposited, transfer_amount)?;
    let liquid = sub_u64(p.liquid_balance, transfer_amount)?;
    let processed_amount = e.process_withdrawal(transfer_amount, current_time);
    if e.processed && queue_position == p.withdrawal_queue_head {
        if p.withdrawal_queue_head == u32::MAX {
            return Err(ErrorCode::CalculationOverflow);
        }
        p.withdrawal_queue_head = p.withdrawal_queue_head + 1;
    }
    let _ = s.process_queued_withdrawal(processed_amount);
    p.total_deposited = total_deposited;
    p.liquid_balance = liquid;
    let _ = p.process_queued_withdrawal(processed_amount);
    *pool = p;
    *stake = s;
    *entry = e;
    Ok(transfer_amount)
}

} // verus!
