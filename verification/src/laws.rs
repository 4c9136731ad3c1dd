//! Conservation laws of the escrow accounting.
//!
//! The operations' contracts give exact deltas for every balance and total
//! they touch; these proof functions state what those deltas add up to over
//! a round's life: stakes in, fee out, payouts out, nothing created or
//! destroyed.

use vstd::prelude::*;
use crate::errors::PanchoError;
use crate::ops::join_round_error;
use crate::ops::lock_round_error;
use crate::ops::settle_round_error;
use crate::ops::settled_round;
use crate::records::GlobalConfig;
use crate::records::Position;
use crate::records::Round;
use crate::settlement::fee_of;
use crate::settlement::lemma_fee_le_total;
use crate::settlement::lemma_proportion_le_total_out;
use crate::settlement::lemma_proportion_superadditive;
use crate::settlement::proportion_spec;
use crate::LOCK_GRACE_SECONDS;
use crate::ROUND_LOCKED;
use crate::ROUND_OPEN;
use crate::SIDE_NONE;

verus! {

/// A round's whole pool: both side totals together.
pub open spec fn pool_total(round: Round) -> int {
    round.up_total + round.down_total
}

/// Conservation while a round is open: the two vault balances together hold
/// exactly the round's pool.
pub open spec fn vaults_match_totals(
    round: Round,
    up_vault_lamports: u64,
    down_vault_lamports: u64,
) -> bool {
    pool_total(round) == up_vault_lamports + down_vault_lamports
}

/// The sum of a sequence of stakes.
pub open spec fn stake_sum(amounts: Seq<u64>) -> int
    decreases amounts.len(),
{
    if amounts.len() == 0 {
        0
    } else {
        stake_sum(amounts.drop_last()) + amounts.last()
    }
}

/// Appending one stake raises the sum by exactly that stake.
pub proof fn lemma_stake_sum_push(amounts: Seq<u64>, amount: u64)
    ensures
        stake_sum(amounts.push(amount)) == stake_sum(amounts) + amount,
{
    assert(amounts.push(amount).drop_last() =~= amounts);
}

/// For every sequence of successful joins, the round's pool equals the sum
/// of their amounts: each join accumulates its stake into one side total
/// (`join_round` ensures exactly that delta), and nothing else moves the
/// totals before settlement.
pub proof fn law_totals_equal_join_sum(
    joins: Seq<u64>,
    before: Round,
    after: Round,
    lamports: u64,
)
    requires
        pool_total(before) == stake_sum(joins),
        pool_total(after) == pool_total(before) + lamports,
    ensures
        pool_total(after) == stake_sum(joins.push(lamports)),
{
    lemma_stake_sum_push(joins, lamports);
}

/// A successful join deposits its stake into the side vault and accumulates
/// the same amount into the side total (`join_round` ensures both deltas),
/// so the two vaults keep holding exactly the round's pool.
pub proof fn law_join_preserves_conservation(
    before: Round,
    after: Round,
    up_vault_before: u64,
    down_vault_before: u64,
    up_vault_after: u64,
    down_vault_after: u64,
    lamports: u64,
)
    requires
        vaults_match_totals(before, up_vault_before, down_vault_before),
        pool_total(after) == pool_total(before) + lamports,
        up_vault_after + down_vault_after == up_vault_before + down_vault_before + lamports,
    ensures
        vaults_match_totals(after, up_vault_after, down_vault_after),
{
}

/// Settlement withdraws exactly the fee from the pair of vaults
/// (`settle_round` ensures those deltas and the fee split), so afterwards
/// the vaults hold exactly the distributable pool.
pub proof fn law_settle_leaves_distributable(
    before: Round,
    after: Round,
    up_vault_before: u64,
    down_vault_before: u64,
    up_vault_after: u64,
    down_vault_after: u64,
)
    requires
        vaults_match_totals(before, up_vault_before, down_vault_before),
        after.fee_lamports + after.distributable_lamports == pool_total(before),
        up_vault_after + down_vault_after == up_vault_before + down_vault_before
            - after.fee_lamports,
    ensures
        up_vault_after + down_vault_after == after.distributable_lamports,
{
}

/// Each claim withdraws exactly its payout from the pair of vaults
/// (`claim` ensures those deltas), so the vaults keep holding the
/// distributable pool minus what was already paid out.  Floor division
/// keeps every payout within what is left, and any rounding dust simply
/// stays behind.
pub proof fn law_claim_withdraws_payout(
    round: Round,
    paid_out_before: int,
    payout: u64,
    up_vault_before: u64,
    down_vault_before: u64,
    up_vault_after: u64,
    down_vault_after: u64,
)
    requires
        up_vault_before + down_vault_before == round.distributable_lamports - paid_out_before,
        up_vault_after + down_vault_after == up_vault_before + down_vault_before - payout,
    ensures
        up_vault_after + down_vault_after == round.distributable_lamports - (paid_out_before
            + payout),
{
}

/// A sum of stakes is never negative.
pub proof fn lemma_stake_sum_nonneg(amounts: Seq<u64>)
    ensures
        stake_sum(amounts) >= 0,
    decreases amounts.len(),
{
    if amounts.len() > 0 {
        lemma_stake_sum_nonneg(amounts.drop_last());
    }
}

/// The sum of the pro-rata payouts of a list of stakes.
pub open spec fn payout_sum(stakes: Seq<u64>, total_out: int, total_in: int) -> int
    decreases stakes.len(),
{
    if stakes.len() == 0 {
        0
    } else {
        payout_sum(stakes.drop_last(), total_out, total_in) + proportion_spec(
            stakes.last() as int,
            total_out,
            total_in,
        )
    }
}

/// Paying stakes one by one never beats paying their sum at once: rounding
/// only ever loses.
pub proof fn lemma_payout_sum_le_combined(stakes: Seq<u64>, total_out: int, total_in: int)
    requires
        0 <= total_out,
        0 < total_in,
    ensures
        payout_sum(stakes, total_out, total_in) <= proportion_spec(
            stake_sum(stakes),
            total_out,
            total_in,
        ),
    decreases stakes.len(),
{
    if stakes.len() > 0 {
        lemma_payout_sum_le_combined(stakes.drop_last(), total_out, total_in);
        lemma_stake_sum_nonneg(stakes.drop_last());
        lemma_proportion_superadditive(
            stake_sum(stakes.drop_last()),
            stakes.last() as int,
            total_out,
            total_in,
        );
    }
}

/// However many positions a pool is split over, the payouts of all of them
/// together never exceed the outgoing pool.  Read with `total_out` the
/// distributable pool and `total_in` the winning side's total (or, on a
/// push, the whole pool), this is the dust rule: floor division may leave a
/// remainder in the vaults for good, but claims can never overdraw them.
pub proof fn law_payouts_never_exceed_pool(stakes: Seq<u64>, total_out: int, total_in: int)
    requires
        stake_sum(stakes) <= total_in,
        0 < total_in,
        0 <= total_out,
    ensures
        payout_sum(stakes, total_out, total_in) <= total_out,
{
    lemma_payout_sum_le_combined(stakes, total_out, total_in);
    lemma_stake_sum_nonneg(stakes);
    lemma_proportion_le_total_out(stake_sum(stakes), total_out, total_in);
}

/// From the round's lock time on, a join is rejected, whatever the round's
/// status, the stake or the pause flag.
pub proof fn law_join_closes_at_lock_time(
    config: GlobalConfig,
    now: i64,
    round: Round,
    position: Position,
    side: u8,
    lamports: u64,
    side_vault_lamports: u64,
)
    requires
        now >= round.lock_ts,
    ensures
        join_round_error(config, now, round, position, side, lamports, side_vault_lamports)
            is Some,
{
}

/// An unpaused, still-open round can be locked only inside the grace
/// window: before `lock_ts` the rejection is "too early", after
/// `lock_ts + 45` seconds it is "window expired".
pub proof fn law_lock_window(
    config: GlobalConfig,
    now: i64,
    now_slot: u64,
    round: Round,
    oracle_key: u64,
    oracle_owner: u64,
    oracle_data: Seq<u8>,
)
    requires
        !config.paused,
        round.status == ROUND_OPEN,
    ensures
        now < round.lock_ts ==> lock_round_error(
            config,
            now,
            now_slot,
            round,
            oracle_key,
            oracle_owner,
            oracle_data,
        ) == Some(PanchoError::TooEarlyToLock),
        now > round.lock_ts + LOCK_GRACE_SECONDS ==> lock_round_error(
            config,
            now,
            now_slot,
            round,
            oracle_key,
            oracle_owner,
            oracle_data,
        ) == Some(PanchoError::LockWindowExpired),
{
}

/// Before the round's end time a settlement is rejected, whatever the
/// round's status.
pub proof fn law_settle_waits_for_end_time(
    config: GlobalConfig,
    now: i64,
    now_slot: u64,
    round: Round,
    oracle_key: u64,
    oracle_owner: u64,
    oracle_data: Seq<u8>,
    up_vault_lamports: u64,
    down_vault_lamports: u64,
    treasury_lamports: u64,
)
    requires
        now < round.end_ts,
    ensures
        settle_round_error(
            config,
            now,
            now_slot,
            round,
            oracle_key,
            oracle_owner,
            oracle_data,
            up_vault_lamports,
            down_vault_lamports,
            treasury_lamports,
        ) is Some,
{
}

/// A round that reaches settlement while still open — its lock window was
/// missed — settles with no winning side.
pub proof fn law_unlocked_settlement_has_no_winner(
    round: Round,
    config: GlobalConfig,
    end_price: i64,
)
    requires
        round.status == ROUND_OPEN,
    ensures
        settled_round(round, config, end_price).winner_side == SIDE_NONE,
{
}

/// A locked round whose price did not move, or with an empty side, settles
/// as a push: no winning side.
pub proof fn law_push_settlement(round: Round, config: GlobalConfig, end_price: i64)
    requires
        round.status == ROUND_LOCKED,
        round.start_price == end_price || round.up_total == 0 || round.down_total == 0,
    ensures
        settled_round(round, config, end_price).winner_side == SIDE_NONE,
{
}

/// The settlement split is exact: the fee is the configured share of the
/// pool, rounded down, and fee and distributable together give back the
/// whole pool.
pub proof fn law_fee_split(round: Round, config: GlobalConfig, end_price: i64)
    requires
        config.wf(),
        round.up_total + round.down_total <= u64::MAX,
    ensures
        settled_round(round, config, end_price).fee_lamports == fee_of(
            round.up_total + round.down_total,
            config.fee_bps as int,
        ),
        settled_round(round, config, end_price).fee_lamports + settled_round(
            round,
            config,
            end_price,
        ).distributable_lamports == round.up_total + round.down_total,
{
    lemma_fee_le_total(round.up_total + round.down_total, config.fee_bps as int);
}

} // verus!
