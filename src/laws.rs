use vstd::prelude::*;

use crate::admin::{execute_error, execute_spec, fresh_pool, initiate_error, veto_error};
use crate::backer_deposit::BackerDeposit;
use crate::deploy_request::DeployRequest;
use crate::deployment::request_funds_error;
use crate::errors::ErrorCode;
use crate::lender::{
    claim_error,
    claim_spec,
    claim_total,
    emergency_unstake_error,
    emergency_unstake_spec,
    is_new_position,
    process_queue_error,
    process_queue_spec,
    queue_payout,
    stake_error,
    stake_spec,
    unstake_error,
    unstake_spec,
};
use crate::pending_withdrawal::{PendingWithdrawal, WithdrawalType};
use crate::pubkey::Pubkey;
use crate::treasury_pool::{TreasuryPool, share_delta, u128_fits};
use crate::withdrawal_queue::WithdrawalQueueEntry;

verus! {

/// Sum of the principal of `positions`.
pub open spec fn deposited_sum(positions: Seq<BackerDeposit>) -> int
    decreases positions.len(),
{
    if positions.len() == 0 {
        0
    } else {
        deposited_sum(positions.drop_last()) + positions.last().deposited_amount
    }
}

/// The ledger's total equals the principal summed over all positions.
pub open spec fn conserved(pool: TreasuryPool, positions: Seq<BackerDeposit>) -> bool {
    pool.total_deposited == deposited_sum(positions)
}

/// A step that changes the ledger's total by exactly what it changes one position's principal by.
pub open spec fn moves_principal_together(pool_before: TreasuryPool, pos_before: BackerDeposit, pool_after: TreasuryPool, pos_after: BackerDeposit) -> bool {
    pool_after.total_deposited - pool_before.total_deposited == pos_after.deposited_amount - pos_before.deposited_amount
}

proof fn lemma_sum_update(positions: Seq<BackerDeposit>, i: int, s: BackerDeposit)
    requires
        0 <= i < positions.len(),
    ensures
        deposited_sum(positions.update(i, s)) == deposited_sum(positions) - positions[i].deposited_amount
            + s.deposited_amount,
    decreases positions.len(),
{
    let u = positions.update(i, s);
    if i == positions.len() - 1 {
        assert(u.drop_last() =~= positions.drop_last());
    } else {
        lemma_sum_update(positions.drop_last(), i, s);
        assert(u.drop_last() =~= positions.drop_last().update(i, s));
    }
}

/// Conservation: when one position and the ledger move their principal
/// together, the ledger's total still equals the sum over all positions.
/// With the laws below for stake, unstake, emergency unstake, claim and
/// queue processing this holds after any sequence of those operations.
pub proof fn lemma_conservation_step(
    positions: Seq<BackerDeposit>,
    i: int,
    pool_before: TreasuryPool,
    pool_after: TreasuryPool,
    pos_after: BackerDeposit,
)
    requires
        conserved(pool_before, positions),
        0 <= i < positions.len(),
        moves_principal_together(pool_before, positions[i], pool_after, pos_after),
    ensures
        conserved(pool_after, positions.update(i, pos_after)),
{
    lemma_sum_update(positions, i, pos_after);
}

/// Conservation over a whole run: `pools[k]` and `states[k]` are the ledger
/// and all positions before step `k`, which changes position `touched[k]`
/// only and moves its principal together with the ledger's total. If the
/// total matched the positions at the start, it matches after every step.
pub proof fn lemma_conservation_trace(
    pools: Seq<TreasuryPool>,
    states: Seq<Seq<BackerDeposit>>,
    touched: Seq<int>,
    k: int,
)
    requires
        pools.len() == states.len(),
        touched.len() + 1 == pools.len(),
        0 <= k < pools.len(),
        conserved(pools[0], states[0]),
        forall|j: int|
            0 <= j < touched.len() ==> {
                &&& 0 <= #[trigger] touched[j] < states[j].len()
                &&& states[j + 1] == states[j].update(touched[j], states[j + 1][touched[j]])
                &&& moves_principal_together(pools[j], states[j][touched[j]], pools[j + 1], states[j + 1][touched[j]])
            },
    ensures
        conserved(pools[k], states[k]),
    decreases k,
{
    if k > 0 {
        lemma_conservation_trace(pools, states, touched, k - 1);
        let j = k - 1;
        assert(0 <= touched[j] < states[j].len());
        lemma_conservation_step(states[j], touched[j], pools[j], pools[j + 1], states[j + 1][touched[j]]);
    }
}

/// A successful stake adds the same amount to the position and to the total.
/// An unused record holds no principal.
pub proof fn lemma_stake_moves_principal_together(
    pool: TreasuryPool,
    pos: BackerDeposit,
    lender: Pubkey,
    amount: u64,
    lender_lamports: u64,
    rent_exemption: u64,
    now: i64,
)
    requires
        is_new_position(pos) ==> pos.deposited_amount == 0,
        stake_error(pool, pos, lender, amount, lender_lamports, rent_exemption, now) is None,
    ensures
        moves_principal_together(
            pool,
            pos,
            stake_spec(pool, pos, lender, amount, now).0,
            stake_spec(pool, pos, lender, amount, now).1,
        ),
{
}

/// A successful unstake takes the same amount off the position and the total.
pub proof fn lemma_unstake_moves_principal_together(
    pool: TreasuryPool,
    pos: BackerDeposit,
    lender: Pubkey,
    amount: u64,
    treasury_lamports: u64,
    rent_exemption: u64,
    now: i64,
)
    requires
        unstake_error(pool, pos, lender, amount, treasury_lamports, rent_exemption, now) is None,
    ensures
        moves_principal_together(
            pool,
            pos,
            unstake_spec(pool, pos, amount, treasury_lamports - rent_exemption, now).0,
            unstake_spec(pool, pos, amount, treasury_lamports - rent_exemption, now).1,
        ),
{
}

/// A successful emergency unstake takes the same amount off the position and the total.
pub proof fn lemma_emergency_unstake_moves_principal_together(
    pool: TreasuryPool,
    pos: BackerDeposit,
    lender: Pubkey,
    amount: u64,
    treasury_lamports: u64,
    rent_exemption: u64,
)
    requires
        emergency_unstake_error(pool, pos, lender, amount, treasury_lamports, rent_exemption) is None,
    ensures
        moves_principal_together(
            pool,
            pos,
            emergency_unstake_spec(pool, pos, amount).0,
            emergency_unstake_spec(pool, pos, amount).1,
        ),
{
}

/// A claim leaves all principal where it is.
pub proof fn lemma_claim_moves_principal_together(pool: TreasuryPool, pos: BackerDeposit, now: i64)
    ensures
        moves_principal_together(pool, pos, claim_spec(pool, pos, now).0, claim_spec(pool, pos, now).1),
{
}

/// A queue payout takes the same amount off the position and the total.
pub proof fn lemma_process_queue_moves_principal_together(
    pool: TreasuryPool,
    entry: WithdrawalQueueEntry,
    pos: BackerDeposit,
    caller: Pubkey,
    queue_position: u32,
    treasury_lamports: u64,
    rent_exemption: u64,
    now: i64,
)
    requires
        process_queue_error(pool, entry, pos, caller, queue_position, treasury_lamports, rent_exemption, now) is None,
    ensures
        ({
            let paid = queue_payout(entry, treasury_lamports, rent_exemption) as u64;
            let (pool_mid, entry_once, pos_mid) = process_queue_spec(pool, entry, pos, queue_position, paid, now);
            moves_principal_together(pool, pos, pool_mid, pos_mid)
        }),
{
}

/// Lifetime claims do not exceed lifetime credits.
pub open spec fn claims_covered(pool: TreasuryPool) -> bool {
    pool.total_claimed_rewards <= pool.total_credited_rewards
}

/// Crediting fee income keeps claims covered by credits.
pub proof fn lemma_credit_keeps_claims_covered(pool: TreasuryPool, fee_reward: u64, fee_platform: u64)
    requires
        claims_covered(pool),
        pool.credit_fee_error(fee_reward, fee_platform) is None,
    ensures
        claims_covered(pool.credit_fee_spec(fee_reward, fee_platform)),
{
}

/// A successful claim leaves lifetime claims within lifetime credits,
/// whatever the ledger held before: it pays at most the protected rewards.
pub proof fn lemma_claim_keeps_claims_covered(pool: TreasuryPool, pos: BackerDeposit, lender: Pubkey, reward_pool_lamports: u64, now: i64)
    requires
        claim_error(pool, pos, lender, reward_pool_lamports, now) is None,
    ensures
        claims_covered(claim_spec(pool, pos, now).0),
        claim_spec(pool, pos, now).0.total_credited_rewards == pool.total_credited_rewards,
{
}

/// No value creation, for every ledger transition but a claim: none of
/// them lowers lifetime credits or raises lifetime claims, so claims stay
/// covered by credits.
pub proof fn lemma_operations_keep_claims_covered(
    pool: TreasuryPool,
    pos: BackerDeposit,
    entry: WithdrawalQueueEntry,
    pending: PendingWithdrawal,
    lender: Pubkey,
    amount: u64,
    fee_reward: u64,
    fee_platform: u64,
    percentage_bps: u64,
    queue_position: u32,
    available: int,
    now: i64,
)
    requires
        claims_covered(pool),
    ensures
        pool.credit_fee_error(fee_reward, fee_platform) is None ==> claims_covered(
            pool.credit_fee_spec(fee_reward, fee_platform),
        ),
        claims_covered(stake_spec(pool, pos, lender, amount, now).0),
        claims_covered(unstake_spec(pool, pos, amount, available, now).0),
        claims_covered(emergency_unstake_spec(pool, pos, amount).0),
        claims_covered(process_queue_spec(pool, entry, pos, queue_position, amount, now).0),
        claims_covered(pool.distribute_spec(percentage_bps)),
        claims_covered(pool.debt_repayment_spec(amount, fee_reward)),
        claims_covered(execute_spec(pool, pending, now)),
        claims_covered(TreasuryPool { reward_pool_balance: (pool.reward_pool_balance + amount) as u64, ..pool }),
        amount <= pool.reward_pool_balance ==> claims_covered(
            TreasuryPool { reward_pool_balance: (pool.reward_pool_balance - amount) as u64, ..pool },
        ),
{
}

/// Excess rewards are never negative, and a reward-pool withdrawal within
/// them leaves at least the protected rewards in the pool.
pub proof fn lemma_reward_withdrawal_spares_protected(pool: TreasuryPool, amount: u64)
    requires
        amount <= pool.excess_rewards(),
        amount > 0,
    ensures
        pool.excess_rewards() >= 0,
        (TreasuryPool { reward_pool_balance: (pool.reward_pool_balance - amount) as u64, ..pool }).reward_pool_balance
            >= pool.protected_rewards(),
{
}

/// Reward monotonicity: fee credits and releases of held-back rewards only
/// raise the accumulator, and staking, unstaking and claiming leave it as it is.
pub proof fn lemma_reward_per_share_monotone(
    pool: TreasuryPool,
    pos: BackerDeposit,
    lender: Pubkey,
    fee_reward: u64,
    fee_platform: u64,
    percentage_bps: u64,
    amount: u64,
    available: int,
    now: i64,
)
    requires
        pool.credit_fee_error(fee_reward, fee_platform) is None,
        percentage_bps <= 10000,
        pool.distribution_amount(percentage_bps) > 0 ==> u128_fits(
            pool.reward_per_share + share_delta(pool.distribution_amount(percentage_bps), pool.total_deposited as int),
        ),
    ensures
        pool.credit_fee_spec(fee_reward, fee_platform).reward_per_share >= pool.reward_per_share,
        pool.distribute_spec(percentage_bps).reward_per_share >= pool.reward_per_share,
        stake_spec(pool, pos, lender, amount, now).0.reward_per_share == pool.reward_per_share,
        unstake_spec(pool, pos, amount, available, now).0.reward_per_share == pool.reward_per_share,
        claim_spec(pool, pos, now).0.reward_per_share == pool.reward_per_share,
{
    if pool.total_deposited > 0 {
        assert(fee_reward * (TreasuryPool::PRECISION as int) >= 0) by (nonlinear_arith);
        vstd::arithmetic::div_mod::lemma_div_pos_is_pos(
            fee_reward * (TreasuryPool::PRECISION as int),
            pool.total_deposited as int,
        );
    }
    let amt = pool.distribution_amount(percentage_bps);
    if amt != 0 {
        assert(pool.pending_undistributed_rewards * percentage_bps >= 0) by (nonlinear_arith);
        vstd::arithmetic::div_mod::lemma_div_pos_is_pos(
            pool.pending_undistributed_rewards * percentage_bps,
            10000,
        );
        assert(amt * (TreasuryPool::PRECISION as int) >= 0) by (nonlinear_arith)
            requires
                amt >= 0,
        ;
        vstd::arithmetic::div_mod::lemma_div_pos_is_pos(
            amt * (TreasuryPool::PRECISION as int),
            pool.total_deposited as int,
        );
    }
}

/// Settlement idempotence: settling twice at the same accumulator value
/// changes nothing the second time.
pub proof fn lemma_settle_idempotent(pos: BackerDeposit, rps: u128)
    requires
        pos.settle_fits(rps),
    ensures
        pos.settle_spec(rps).settle_fits(rps),
        pos.settle_spec(rps).settle_spec(rps) == pos.settle_spec(rps),
        pos.settle_spec(rps).settle_spec(rps).pending_rewards == pos.settle_spec(rps).pending_rewards,
{
    let s = pos.settle_spec(rps);
    assert(s.unsettled(rps) == 0) by {
        assert(s.deposited_amount * rps - s.reward_debt == 0);
        vstd::arithmetic::div_mod::lemma_div_of0(TreasuryPool::PRECISION as int);
    }
}

/// First-depositor fairness: when rewards sit in the pool while nothing is
/// staked, the first depositor can claim nothing right away and the rewards
/// are held back for gradual distribution instead.
pub proof fn lemma_first_depositor_fairness(
    pool: TreasuryPool,
    pos: BackerDeposit,
    lender: Pubkey,
    amount: u64,
    lender_lamports: u64,
    rent_exemption: u64,
    now: i64,
)
    requires
        pool.total_deposited == 0,
        pool.reward_pool_balance > 0,
        is_new_position(pos),
        stake_error(pool, pos, lender, amount, lender_lamports, rent_exemption, now) is None,
    ensures
        ({
            let (pool_mid, pos_mid) = stake_spec(pool, pos, lender, amount, now);
            &&& pos_mid.claimable(pool_mid.reward_per_share) == 0
            &&& claim_total(pool_mid, pos_mid, now) == 0
            &&& pool_mid.pending_undistributed_rewards >= pool.reward_pool_balance
            &&& (pool.pending_undistributed_rewards <= pool.reward_pool_balance ==> pool_mid.pending_undistributed_rewards
                == pool.reward_pool_balance)
        }),
{
    let (pool_mid, pos_mid) = stake_spec(pool, pos, lender, amount, now);
    assert(pos_mid.deposited_amount * pool_mid.reward_per_share - pos_mid.reward_debt == 0);
    vstd::arithmetic::div_mod::lemma_div_of0(TreasuryPool::PRECISION as int);
    let pos_end = pos_mid.duration_spec(now);
    assert(pos_mid.weight_delta(now as int) == 0) by {
        assert(pos_mid.last_action_at == now);
    }
    if pool_mid.total_stake_duration_weight != 0 && pool_mid.pending_undistributed_rewards != 0 {
        assert(pool_mid.pending_undistributed_rewards * 0 == 0);
        vstd::arithmetic::div_mod::lemma_div_of0(pool_mid.total_stake_duration_weight as int);
    }
}

/// Utilization cap: while there are deposits, a funding request that would
/// lend more than 80% of them fails with `PoolUtilizationTooHigh`.
pub proof fn lemma_utilization_cap(
    pool: TreasuryPool,
    service_fee: u64,
    monthly_fee: u64,
    initial_months: u32,
    deployment_cost: u64,
    now: i64,
)
    requires
        !pool.emergency_pause,
        1 <= initial_months <= DeployRequest::MAX_EXTENSION_MONTHS,
        deployment_cost > 0,
        pool.total_deposited > 0,
        (pool.total_borrowed + deployment_cost) * 10000 > TreasuryPool::MAX_UTILIZATION_BPS * pool.total_deposited,
    ensures
        request_funds_error(pool, service_fee, monthly_fee, initial_months, deployment_cost, now) == Some(
            ErrorCode::PoolUtilizationTooHigh,
        ),
{
}

/// Timelock mutual exclusion: once a withdrawal has been initiated, a
/// second one fails with `PendingWithdrawalExists`.
pub proof fn lemma_timelock_mutual_exclusion(
    pool: TreasuryPool,
    caller: Pubkey,
    first_type: WithdrawalType,
    first_amount: u64,
    first_time: i64,
    second_type: WithdrawalType,
    second_amount: u64,
    second_time: i64,
)
    requires
        initiate_error(pool, caller, first_type, first_amount, first_time) is None,
        second_amount > 0,
    ensures
        initiate_error(
            TreasuryPool { pending_withdrawal_count: 1, ..pool },
            caller,
            second_type,
            second_amount,
            second_time,
        ) == Some(ErrorCode::PendingWithdrawalExists),
{
}

/// Once the in-flight withdrawal has been executed, vetoed or cancelled, the
/// slot is free again: a new proposal is no longer refused with
/// `PendingWithdrawalExists`, and succeeds when nothing else stands in its way.
pub proof fn lemma_timelock_slot_freed(
    pool: TreasuryPool,
    pending: PendingWithdrawal,
    caller: Pubkey,
    guardian: Pubkey,
    destination: Pubkey,
    source_lamports: u64,
    withdrawal_type: WithdrawalType,
    amount: u64,
    settle_time: i64,
    now: i64,
)
    ensures
        execute_error(pool, pending, caller, destination, source_lamports, settle_time) is None ==> initiate_error(
            execute_spec(pool, pending, settle_time),
            caller,
            withdrawal_type,
            amount,
            now,
        ) != Some(ErrorCode::PendingWithdrawalExists),
        veto_error(pool, pending, guardian, settle_time) is None ==> initiate_error(
            TreasuryPool { pending_withdrawal_count: 0, ..pool },
            caller,
            withdrawal_type,
            amount,
            now,
        ) != Some(ErrorCode::PendingWithdrawalExists),
        initiate_error(TreasuryPool { pending_withdrawal_count: 0, ..pool }, caller, withdrawal_type, amount, now)
            != Some(ErrorCode::PendingWithdrawalExists),
{
}

/// Queue correctness: an entry of `amount` processed with `available` less
/// than it pays exactly `available` and stays open; processing the rest
/// completes it.
pub proof fn lemma_queue_partial_then_complete(
    entry: WithdrawalQueueEntry,
    available: u64,
    first_time: i64,
    second_time: i64,
)
    requires
        entry.amount_withdrawn == 0,
        !entry.processed,
        0 < available < entry.amount,
    ensures
        ({
            let entry_once = entry.process_spec(available, first_time);
            let entry_twice = entry_once.process_spec((entry.amount - available) as u64, second_time);
            &&& entry.payout(available) == available
            &&& entry_once.amount_withdrawn == available
            &&& !entry_once.processed
            &&& entry_once.is_pending_spec()
            &&& entry_once.payout((entry.amount - available) as u64) == entry.amount - available
            &&& entry_twice.amount_withdrawn == entry.amount
            &&& entry_twice.processed
            &&& entry_twice.processed_at == second_time
            &&& !entry_twice.is_pending_spec()
        }),
{
}


/// A freshly initialized ledger is well formed.
pub proof fn lemma_fresh_pool_wf(admin: Pubkey, dev_wallet: Pubkey, guardian: Pubkey, reward_pool_bump: u8, platform_pool_bump: u8, bump: u8)
    ensures
        fresh_pool(admin, dev_wallet, guardian, reward_pool_bump, platform_pool_bump, bump).wf(),
{
}

/// Every state change of the ledger keeps it well formed: the timelock
/// operations keep at most one withdrawal in flight, a new timelock must lie
/// within its bounds, the queue head only advances onto a position below
/// the tail, and the other operations touch none of these fields.
pub proof fn lemma_operations_keep_wf(
    pool: TreasuryPool,
    pos: BackerDeposit,
    pending: PendingWithdrawal,
    caller: Pubkey,
    destination: Pubkey,
    withdrawal_type: WithdrawalType,
    amount: u64,
    fee_reward: u64,
    fee_platform: u64,
    percentage_bps: u64,
    new_duration: i64,
    source_lamports: u64,
    available: int,
    entry: WithdrawalQueueEntry,
    queue_position: u32,
    treasury_lamports: u64,
    rent_exemption: u64,
    now: i64,
)
    requires
        pool.wf(),
    ensures
        initiate_error(pool, caller, withdrawal_type, amount, now) is None ==> (TreasuryPool {
            pending_withdrawal_count: 1,
            ..pool
        }).wf(),
        execute_error(pool, pending, caller, destination, source_lamports, now) is None ==> execute_spec(
            pool,
            pending,
            now,
        ).wf(),
        (TreasuryPool { pending_withdrawal_count: 0, ..pool }).wf(),
        TreasuryPool::MIN_TIMELOCK_DURATION <= new_duration <= TreasuryPool::MAX_TIMELOCK_DURATION ==> (TreasuryPool {
            timelock_duration: new_duration,
            ..pool
        }).wf(),
        stake_spec(pool, pos, caller, amount, now).0.wf(),
        unstake_spec(pool, pos, amount, available, now).0.wf(),
        emergency_unstake_spec(pool, pos, amount).0.wf(),
        claim_spec(pool, pos, now).0.wf(),
        pool.credit_fee_spec(fee_reward, fee_platform).wf(),
        pool.distribute_spec(percentage_bps).wf(),
        pool.debt_repayment_spec(amount, fee_reward).wf(),
        pool.daily_limit_spec(amount, now as int).wf(),
        pool.withdrawal_queue_tail < u32::MAX ==> (TreasuryPool {
            withdrawal_queue_tail: (pool.withdrawal_queue_tail + 1) as u32,
            queued_withdrawal_amount: (pool.queued_withdrawal_amount + amount) as u64,
            ..pool
        }).wf(),
        process_queue_error(pool, entry, pos, caller, queue_position, treasury_lamports, rent_exemption, now) is None
            ==> process_queue_spec(
            pool,
            entry,
            pos,
            queue_position,
            queue_payout(entry, treasury_lamports, rent_exemption) as u64,
            now,
        ).0.wf(),
{
}

/// Queue entries stay well formed: a new entry is, and paying out or
/// cancelling keeps the paid amount within the request.
pub proof fn lemma_queue_entry_wf(entry: WithdrawalQueueEntry, available: u64, now: i64)
    requires
        entry.wf(),
    ensures
        entry.process_spec(available, now).wf(),
        (WithdrawalQueueEntry { processed: true, processed_at: now, ..entry }).wf(),
        (WithdrawalQueueEntry { amount_withdrawn: 0, ..entry }).wf(),
{
}


/// Positions stay well formed through staking, unstaking, emergency
/// unstaking, claiming and queue payouts: a position that is emptied is deactivated with a cleared
/// snapshot, and what is queued never exceeds what is deposited.
pub proof fn lemma_position_wf(
    pool: TreasuryPool,
    pos: BackerDeposit,
    entry: WithdrawalQueueEntry,
    lender: Pubkey,
    caller: Pubkey,
    amount: u64,
    lender_lamports: u64,
    treasury_lamports: u64,
    rent_exemption: u64,
    reward_pool_lamports: u64,
    queue_position: u32,
    now: i64,
)
    requires
        pos.wf(),
    ensures
        stake_error(pool, pos, lender, amount, lender_lamports, rent_exemption, now) is None ==> stake_spec(
            pool,
            pos,
            lender,
            amount,
            now,
        ).1.wf(),
        unstake_error(pool, pos, lender, amount, treasury_lamports, rent_exemption, now) is None ==> unstake_spec(
            pool,
            pos,
            amount,
            treasury_lamports - rent_exemption,
            now,
        ).1.wf(),
        claim_error(pool, pos, lender, reward_pool_lamports, now) is None ==> claim_spec(pool, pos, now).1.wf(),
        emergency_unstake_error(pool, pos, lender, amount, treasury_lamports, rent_exemption) is None
            ==> emergency_unstake_spec(pool, pos, amount).1.wf(),
        process_queue_error(pool, entry, pos, caller, queue_position, treasury_lamports, rent_exemption, now) is None
            ==> process_queue_spec(
            pool,
            entry,
            pos,
            queue_position,
            queue_payout(entry, treasury_lamports, rent_exemption) as u64,
            now,
        ).2.wf(),
{
    if pos.deposited_amount == 0 {
        assert(pos.deposited_amount * pool.reward_per_share == 0) by (nonlinear_arith)
            requires
                pos.deposited_amount == 0,
        ;
    }
}

} // verus!
