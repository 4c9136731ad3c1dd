//! Settlement arithmetic: the pro-rata payout formula and the fee split.

use vstd::prelude::*;
use crate::errors::PanchoError;
use crate::records::GlobalConfig;
use crate::records::Round;
use crate::BPS_DENOMINATOR;
use crate::SIDE_NONE;
use crate::SIDE_UP;

verus! {

/// The pro-rata share: zero when any input is zero, else
/// `floor(numerator * total_out / total_in)`.
pub open spec fn proportion_spec(numerator: int, total_out: int, total_in: int) -> int {
    if total_in == 0 || total_out == 0 || numerator == 0 {
        0
    } else {
        (numerator * total_out) / total_in
    }
}

/// Computes `proportion_spec` over machine integers.  The multiply is
/// overflow-checked: a product beyond `u64::MAX` rejects the call, it is
/// never truncated.
pub fn proportion(numerator: u64, total_out: u64, total_in: u64) -> (r: Result<u64, PanchoError>)
    ensures
        r is Ok <==> (numerator == 0 || total_out == 0 || total_in == 0
            || numerator * total_out <= u64::MAX),
        r is Ok ==> r->Ok_0 == proportion_spec(numerator as int, total_out as int, total_in as int),
        r is Err ==> r->Err_0 == PanchoError::MathOverflow,
{
    if total_in == 0 || total_out == 0 || numerator == 0 {
        return Ok(0);
    }
    let product: u64 = match numerator.checked_mul(total_out) {
        Some(p) => p,
        None => return Err(PanchoError::MathOverflow),
    };
    Ok(product / total_in)
}

/// The fee taken at settlement out of a pool of `total` lamports:
/// `floor(total * fee_bps / 10_000)`.
pub open spec fn fee_of(total: int, fee_bps: int) -> int {
    (total * fee_bps) / (BPS_DENOMINATOR as int)
}

/// A zero stake is paid nothing, whatever the pool and the totals.
pub proof fn lemma_proportion_zero_numerator(total_out: int, total_in: int)
    ensures
        proportion_spec(0, total_out, total_in) == 0,
{
}

/// A stake no larger than the pool it is measured against is never paid more
/// than the whole outgoing pool: value is never created.
pub proof fn lemma_proportion_le_total_out(numerator: int, total_out: int, total_in: int)
    requires
        0 <= numerator <= total_in,
        0 <= total_out,
    ensures
        proportion_spec(numerator, total_out, total_in) <= total_out,
{
    if total_in != 0 && total_out != 0 && numerator != 0 {
        assert((numerator * total_out) / total_in <= total_out) by (nonlinear_arith)
            requires
                0 < numerator <= total_in,
                0 < total_out,
        ;
    }
}

/// A stake equal to the whole incoming pool is paid the whole outgoing pool:
/// floor division loses nothing on the full share.
pub proof fn lemma_proportion_full_share(total_out: int, total_in: int)
    requires
        0 < total_in,
        0 <= total_out,
    ensures
        proportion_spec(total_in, total_out, total_in) == total_out,
{
    if total_out != 0 {
        assert((total_in * total_out) / total_in == total_out) by (nonlinear_arith)
            requires
                0 < total_in,
        ;
    }
}

/// Two stakes together are never paid less than separately — equivalently,
/// splitting a stake never gains from rounding.  Applied across all the
/// positions of a side (whose stakes sum to the side's total) together with
/// the full-share law, it bounds the sum of all payouts by the whole
/// distributable pool: floor division leaves dust in the vaults but never
/// creates value.
pub proof fn lemma_proportion_superadditive(a: int, b: int, total_out: int, total_in: int)
    requires
        0 <= a,
        0 <= b,
        0 <= total_out,
        0 < total_in,
    ensures
        proportion_spec(a, total_out, total_in) + proportion_spec(b, total_out, total_in)
            <= proportion_spec(a + b, total_out, total_in),
{
    if a != 0 && b != 0 && total_out != 0 {
        assert((a * total_out) / total_in + (b * total_out) / total_in <= ((a + b) * total_out)
            / total_in) by (nonlinear_arith)
            requires
                0 < a,
                0 < b,
                0 < total_out,
                0 < total_in,
        ;
    } else {
        if a != 0 || b != 0 {
            assert(proportion_spec(a + b, total_out, total_in) >= 0) by (nonlinear_arith)
                requires
                    0 <= a,
                    0 <= b,
                    0 <= total_out,
                    0 < total_in,
            ;
        }
    }
}

/// Two stakes that exhaust a side's total are together paid at most the
/// whole outgoing pool, whatever the rounding does to each of them.
pub proof fn lemma_two_payouts_bounded(a: int, total_out: int, total_in: int)
    requires
        0 <= a <= total_in,
        0 < total_in,
        0 <= total_out,
    ensures
        proportion_spec(a, total_out, total_in) + proportion_spec(
            total_in - a,
            total_out,
            total_in,
        ) <= total_out,
{
    lemma_proportion_superadditive(a, total_in - a, total_out, total_in);
    lemma_proportion_full_share(total_out, total_in);
}

/// The fee never exceeds the pool it is taken from, as long as the rate is
/// at most the whole (10_000 basis points).
pub proof fn lemma_fee_le_total(total: int, fee_bps: int)
    requires
        0 <= total,
        0 <= fee_bps <= BPS_DENOMINATOR,
    ensures
        0 <= fee_of(total, fee_bps) <= total,
{
    assert(0 <= (total * fee_bps) / 10_000 <= total) by (nonlinear_arith)
        requires
            0 <= total,
            0 <= fee_bps <= 10_000,
    ;
}

/// What a settled round owes a position on `side` with stake `amount`:
/// a pro-rata refund of the distributable pool on a push, the side's
/// pro-rata share of the distributable pool when it won, nothing when it
/// lost.
pub open spec fn claim_payout_spec(round: Round, side: u8, amount: u64) -> int {
    if round.winner_side == SIDE_NONE {
        proportion_spec(
            amount as int,
            round.distributable_lamports as int,
            round.up_total + round.down_total,
        )
    } else if side == round.winner_side {
        proportion_spec(
            amount as int,
            round.distributable_lamports as int,
            if round.winner_side == SIDE_UP {
                round.up_total as int
            } else {
                round.down_total as int
            },
        )
    } else {
        0
    }
}

/// Whether computing `claim_payout_spec` over machine integers would
/// overflow the checked multiply inside `proportion`.
pub open spec fn claim_payout_overflows(round: Round, side: u8, amount: u64) -> bool {
    if round.winner_side == SIDE_NONE {
        amount != 0 && round.distributable_lamports != 0
            && round.up_total + round.down_total != 0
            && amount * round.distributable_lamports > u64::MAX
    } else if side == round.winner_side {
        let winner_total = if round.winner_side == SIDE_UP {
            round.up_total
        } else {
            round.down_total
        };
        amount != 0 && round.distributable_lamports != 0 && winner_total != 0
            && amount * round.distributable_lamports > u64::MAX
    } else {
        false
    }
}

/// The fee the configured rate takes out of a round's pool, over
/// mathematical integers.
pub open spec fn settle_fee(round: Round, config: GlobalConfig) -> int {
    fee_of(round.up_total + round.down_total, config.fee_bps as int)
}

} // verus!
