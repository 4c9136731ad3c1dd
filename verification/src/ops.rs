//! The operations: each one rejects or fully applies, never partially.
//!
//! Every function here is a single atomic step over plain records and
//! balances.  The host is expected to have resolved the addressed records
//! (config, round, vaults, position) and their live balances, to have
//! checked record bindings and signatures, and to persist the mutated values
//! only when the call returns successfully.  Timing comes in as `now`
//! (seconds) and `now_slot` (the oracle's staleness clock).

use vstd::prelude::*;
use crate::errors::PanchoError;
use crate::records::GlobalConfig;
use crate::records::Round;
use crate::records::Vault;
use crate::records::Position;
use crate::events::RoundCreated;
use crate::events::RoundJoined;
use crate::events::RoundLocked;
use crate::events::RoundSettled;
use crate::events::Claimed;
use crate::oracle::OraclePrice;
use crate::oracle::oracle_read;
use crate::oracle::read_legacy_pyth_price;
use crate::settlement::claim_payout_overflows;
use crate::settlement::claim_payout_spec;
use crate::settlement::lemma_fee_le_total;
use crate::settlement::proportion;
use crate::settlement::settle_fee;
use crate::vaults::down_share;
use crate::vaults::transfer_from_vaults;
use crate::vaults::up_share;
use crate::vaults::vault_transfer_error;
use crate::BPS_DENOMINATOR;
use crate::LOCK_GRACE_SECONDS;
use crate::ROUND_LOCKED;
use crate::ROUND_OPEN;
use crate::ROUND_SETTLED;
use crate::SIDE_DOWN;
use crate::SIDE_NONE;
use crate::SIDE_UP;

verus! {

/// Creates the configuration singleton.  Only the fee rate can be invalid.
pub fn initialize_config(
    admin: u64,
    treasury: u64,
    fee_bps: u16,
    oracle_max_age_sec: u32,
    oracle_program: u64,
) -> (r: Result<GlobalConfig, PanchoError>)
    ensures
        r is Ok <==> fee_bps <= 1500,
        r is Ok ==> r->Ok_0 == (GlobalConfig {
            admin,
            treasury,
            oracle_program,
            fee_bps,
            oracle_max_age_sec,
            paused: false,
        }),
        r is Ok ==> r->Ok_0.wf(),
        r is Err ==> r->Err_0 == PanchoError::InvalidFeeBps,
{
    if fee_bps > 1500 {
        return Err(PanchoError::InvalidFeeBps);
    }
    Ok(GlobalConfig { admin, treasury, oracle_program, fee_bps, oracle_max_age_sec, paused: false })
}

/// Updates the fee rate, oracle age bound and pause flag.  The host admits
/// only the administrator to this call.
pub fn set_config(
    config: &mut GlobalConfig,
    fee_bps: u16,
    oracle_max_age_sec: u32,
    paused: bool,
) -> (r: Result<(), PanchoError>)
    ensures
        r is Ok <==> fee_bps <= 1500,
        r is Ok ==> *final(config) == (GlobalConfig {
            fee_bps,
            oracle_max_age_sec,
            paused,
            ..*old(config)
        }),
        r is Ok ==> final(config).wf(),
        r is Err ==> r->Err_0 == PanchoError::InvalidFeeBps,
        r is Err ==> *final(config) == *old(config),
{
    if fee_bps > 1500 {
        return Err(PanchoError::InvalidFeeBps);
    }
    config.fee_bps = fee_bps;
    config.oracle_max_age_sec = oracle_max_age_sec;
    config.paused = paused;
    Ok(())
}

/// Points the fee destination at a new treasury account.  The host admits
/// only the administrator to this call.
pub fn set_treasury(config: &mut GlobalConfig, new_treasury: u64) -> (r: Result<
    (),
    PanchoError,
>)
    ensures
        r is Ok,
        *final(config) == (GlobalConfig { treasury: new_treasury, ..*old(config) }),
{
    config.treasury = new_treasury;
    Ok(())
}

/// Why a round creation is rejected, if it is: the pause flag, then the
/// schedule (the end must follow the lock, and the lock must be in the
/// future).
pub open spec fn create_round_error(config: GlobalConfig, now: i64, lock_ts: i64, end_ts: i64)
    -> Option<PanchoError> {
    if config.paused {
        Some(PanchoError::ProtocolPaused)
    } else if end_ts <= lock_ts {
        Some(PanchoError::InvalidSchedule)
    } else if lock_ts <= now {
        Some(PanchoError::InvalidSchedule)
    } else {
        None
    }
}

/// Creates a round and its two empty side vaults, all bound to `round_key`,
/// the round's host-derived address.  The round starts open, with zeroed
/// prices and totals and no winner.
pub fn create_round(
    config: &GlobalConfig,
    now: i64,
    market: u8,
    round_id: i64,
    lock_ts: i64,
    end_ts: i64,
    feed_id: [u8; 32],
    oracle_price_account: u64,
    round_key: u64,
) -> (r: Result<(Round, Vault, Vault, RoundCreated), PanchoError>)
    ensures
        r is Ok <==> create_round_error(*config, now, lock_ts, end_ts) is None,
        r is Err ==> Some(r->Err_0) == create_round_error(*config, now, lock_ts, end_ts),
        r is Ok ==> r->Ok_0.0 == (Round {
            round_id,
            market,
            feed_id,
            oracle_price_account,
            lock_ts,
            end_ts,
            start_price: 0,
            end_price: 0,
            expo: 0,
            status: ROUND_OPEN,
            winner_side: SIDE_NONE,
            up_total: 0,
            down_total: 0,
            fee_lamports: 0,
            distributable_lamports: 0,
        }),
        r is Ok ==> r->Ok_0.0.wf(),
        r is Ok ==> r->Ok_0.1 == (Vault { round: round_key, side: SIDE_UP }),
        r is Ok ==> r->Ok_0.2 == (Vault { round: round_key, side: SIDE_DOWN }),
        r is Ok ==> r->Ok_0.3 == (RoundCreated { round: round_key, round_id, market, lock_ts, end_ts }),
{
    if config.paused {
        return Err(PanchoError::ProtocolPaused);
    }
    if end_ts <= lock_ts {
        return Err(PanchoError::InvalidSchedule);
    }
    if lock_ts <= now {
        return Err(PanchoError::InvalidSchedule);
    }
    let round = Round {
        round_id,
        market,
        feed_id,
        oracle_price_account,
        lock_ts,
        end_ts,
        start_price: 0,
        end_price: 0,
        expo: 0,
        status: ROUND_OPEN,
        winner_side: SIDE_NONE,
        up_total: 0,
        down_total: 0,
        fee_lamports: 0,
        distributable_lamports: 0,
    };
    let up_vault = Vault { round: round_key, side: SIDE_UP };
    let down_vault = Vault { round: round_key, side: SIDE_DOWN };
    let event = RoundCreated { round: round_key, round_id, market, lock_ts, end_ts };
    Ok((round, up_vault, down_vault, event))
}

/// Why a join is rejected, if it is, in the order the checks run: pause,
/// stake, side, round status, the join window, the deposit into the side
/// vault, the position's side and claim state, then the two overflow-checked
/// accumulations.
pub open spec fn join_round_error(
    config: GlobalConfig,
    now: i64,
    round: Round,
    position: Position,
    side: u8,
    lamports: u64,
    side_vault_lamports: u64,
) -> Option<PanchoError> {
    if config.paused {
        Some(PanchoError::ProtocolPaused)
    } else if lamports == 0 {
        Some(PanchoError::InvalidStake)
    } else if !(side == SIDE_UP || side == SIDE_DOWN) {
        Some(PanchoError::InvalidSide)
    } else if round.status != ROUND_OPEN {
        Some(PanchoError::RoundNotOpen)
    } else if now >= round.lock_ts {
        Some(PanchoError::RoundLocked)
    } else if side_vault_lamports + lamports > u64::MAX {
        Some(PanchoError::MathOverflow)
    } else if position.amount != 0 && position.side != side {
        Some(PanchoError::PositionSideMismatch)
    } else if position.amount != 0 && position.claimed {
        Some(PanchoError::AlreadyClaimed)
    } else if position.amount + lamports > u64::MAX {
        Some(PanchoError::MathOverflow)
    } else if side == SIDE_UP && round.up_total + lamports > u64::MAX {
        Some(PanchoError::MathOverflow)
    } else if side == SIDE_DOWN && round.down_total + lamports > u64::MAX {
        Some(PanchoError::MathOverflow)
    } else {
        None
    }
}

/// Stakes `lamports` on `side` of an open round before its lock time.
///
/// On success the stake lands in the side's vault balance, the position —
/// created on first contact, bound to `round_key` and `user`, its side fixed
/// — accumulates it, and the round's side total accumulates it.  On any
/// rejection nothing changes.
pub fn join_round(
    config: &GlobalConfig,
    now: i64,
    round: &mut Round,
    round_key: u64,
    position: &mut Position,
    user: u64,
    side: u8,
    lamports: u64,
    side_vault_lamports: &mut u64,
) -> (r: Result<RoundJoined, PanchoError>)
    requires
        old(round).wf(),
    ensures
        r is Ok <==> join_round_error(
            *config,
            now,
            *old(round),
            *old(position),
            side,
            lamports,
            *old(side_vault_lamports),
        ) is None,
        r is Err ==> Some(r->Err_0) == join_round_error(
            *config,
            now,
            *old(round),
            *old(position),
            side,
            lamports,
            *old(side_vault_lamports),
        ),
        r is Ok ==> *final(round) == (Round {
            up_total: if side == SIDE_UP {
                (old(round).up_total + lamports) as u64
            } else {
                old(round).up_total
            },
            down_total: if side == SIDE_DOWN {
                (old(round).down_total + lamports) as u64
            } else {
                old(round).down_total
            },
            ..*old(round)
        }),
        r is Ok ==> final(round).wf(),
        r is Ok ==> *final(position) == (Position {
            round: if old(position).amount == 0 {
                round_key
            } else {
                old(position).round
            },
            user: if old(position).amount == 0 {
                user
            } else {
                old(position).user
            },
            side,
            amount: (old(position).amount + lamports) as u64,
            claimed: false,
        }),
        r is Ok ==> *final(side_vault_lamports) == *old(side_vault_lamports) + lamports,
        r is Ok ==> r->Ok_0 == (RoundJoined { round: round_key, user, side, lamports }),
        r is Err ==> *final(round) == *old(round) && *final(position) == *old(position)
            && *final(side_vault_lamports) == *old(side_vault_lamports),
{
    if config.paused {
        return Err(PanchoError::ProtocolPaused);
    }
    if lamports == 0 {
        return Err(PanchoError::InvalidStake);
    }
    if !(side == SIDE_UP || side == SIDE_DOWN) {
        return Err(PanchoError::InvalidSide);
    }
    if round.status != ROUND_OPEN {
        return Err(PanchoError::RoundNotOpen);
    }
    if now >= round.lock_ts {
        return Err(PanchoError::RoundLocked);
    }
    let new_vault_balance: u64 = match (*side_vault_lamports).checked_add(lamports) {
        Some(v) => v,
        None => return Err(PanchoError::MathOverflow),
    };
    let fresh: bool = position.amount == 0;
    if !fresh && position.side != side {
        return Err(PanchoError::PositionSideMismatch);
    }
    if !fresh && position.claimed {
        return Err(PanchoError::AlreadyClaimed);
    }
    let new_amount: u64 = match position.amount.checked_add(lamports) {
        Some(v) => v,
        None => return Err(PanchoError::MathOverflow),
    };
    if side == SIDE_UP {
        let new_total: u64 = match round.up_total.checked_add(lamports) {
            Some(v) => v,
            None => return Err(PanchoError::MathOverflow),
        };
        round.up_total = new_total;
    } else {
        let new_total: u64 = match round.down_total.checked_add(lamports) {
            Some(v) => v,
            None => return Err(PanchoError::MathOverflow),
        };
        round.down_total = new_total;
    }
    if fresh {
        position.round = round_key;
        position.user = user;
    }
    position.side = side;
    position.claimed = false;
    position.amount = new_amount;
    *side_vault_lamports = new_vault_balance;
    Ok(RoundJoined { round: round_key, user, side, lamports })
}

/// Why a lock is rejected, if it is: pause, round status, the grace window
/// `[lock_ts, lock_ts + 45]`, then whatever the oracle read rejects.
pub open spec fn lock_round_error(
    config: GlobalConfig,
    now: i64,
    now_slot: u64,
    round: Round,
    oracle_key: u64,
    oracle_owner: u64,
    oracle_data: Seq<u8>,
) -> Option<PanchoError> {
    if config.paused {
        Some(PanchoError::ProtocolPaused)
    } else if round.status != ROUND_OPEN {
        Some(PanchoError::RoundAlreadyLocked)
    } else if now < round.lock_ts {
        Some(PanchoError::TooEarlyToLock)
    } else if now > round.lock_ts + LOCK_GRACE_SECONDS {
        Some(PanchoError::LockWindowExpired)
    } else {
        match oracle_read(
            oracle_key,
            oracle_owner,
            oracle_data,
            round.oracle_price_account,
            now_slot,
            config.oracle_max_age_sec as u64,
            config.oracle_program,
        ) {
            Ok(_) => None,
            Err(e) => Some(e),
        }
    }
}

/// Locks an open round inside its grace window, capturing the oracle's
/// current price as the start price.  Before `lock_ts` the call is too
/// early; after `lock_ts + 45` seconds the window has expired and the round
/// stays open until it can be settled with no winner.
pub fn lock_round(
    config: &GlobalConfig,
    now: i64,
    now_slot: u64,
    round: &mut Round,
    round_key: u64,
    oracle_key: u64,
    oracle_owner: u64,
    oracle_data: &[u8],
) -> (r: Result<RoundLocked, PanchoError>)
    requires
        old(round).wf(),
    ensures
        r is Ok <==> lock_round_error(
            *config,
            now,
            now_slot,
            *old(round),
            oracle_key,
            oracle_owner,
            oracle_data@,
        ) is None,
        r is Err ==> Some(r->Err_0) == lock_round_error(
            *config,
            now,
            now_slot,
            *old(round),
            oracle_key,
            oracle_owner,
            oracle_data@,
        ),
        r is Ok ==> *final(round) == (Round {
            start_price: oracle_read(
                oracle_key,
                oracle_owner,
                oracle_data@,
                old(round).oracle_price_account,
                now_slot,
                config.oracle_max_age_sec as u64,
                config.oracle_program,
            )->Ok_0.price,
            expo: oracle_read(
                oracle_key,
                oracle_owner,
                oracle_data@,
                old(round).oracle_price_account,
                now_slot,
                config.oracle_max_age_sec as u64,
                config.oracle_program,
            )->Ok_0.expo,
            status: ROUND_LOCKED,
            ..*old(round)
        }),
        r is Ok ==> final(round).wf(),
        r is Ok ==> r->Ok_0 == (RoundLocked {
            round: round_key,
            start_price: final(round).start_price,
            expo: final(round).expo,
            locked_at: now,
        }),
        r is Err ==> *final(round) == *old(round),
{
    if config.paused {
        return Err(PanchoError::ProtocolPaused);
    }
    if round.status != ROUND_OPEN {
        return Err(PanchoError::RoundAlreadyLocked);
    }
    if now < round.lock_ts {
        return Err(PanchoError::TooEarlyToLock);
    }
    let within_grace: bool = match round.lock_ts.checked_add(LOCK_GRACE_SECONDS) {
        Some(limit) => now <= limit,
        None => true,
    };
    if !within_grace {
        return Err(PanchoError::LockWindowExpired);
    }
    let price: OraclePrice = match read_legacy_pyth_price(
        oracle_key,
        oracle_owner,
        oracle_data,
        round.oracle_price_account,
        now_slot,
        config.oracle_max_age_sec as u64,
        config.oracle_program,
    ) {
        Ok(p) => p,
        Err(e) => return Err(e),
    };
    round.start_price = price.price;
    round.expo = price.expo;
    round.status = ROUND_LOCKED;
    Ok(RoundLocked { round: round_key, start_price: price.price, expo: price.expo, locked_at: now })
}

/// The winning side of a locked round settled at `end_price`: none when a
/// side is empty or the price did not move, else whichever direction the
/// price took.
pub open spec fn winner_of(up_total: u64, down_total: u64, start_price: i64, end_price: i64)
    -> u8 {
    if up_total == 0 || down_total == 0 || start_price == end_price {
        SIDE_NONE
    } else if end_price > start_price {
        SIDE_UP
    } else {
        SIDE_DOWN
    }
}

/// The end price a settlement records: the oracle's price when the round was
/// locked, the round's stored (never captured) end price when it was still
/// open.
pub open spec fn settle_end_price(
    config: GlobalConfig,
    now_slot: u64,
    round: Round,
    oracle_key: u64,
    oracle_owner: u64,
    oracle_data: Seq<u8>,
) -> i64 {
    if round.status == ROUND_LOCKED {
        oracle_read(
            oracle_key,
            oracle_owner,
            oracle_data,
            round.oracle_price_account,
            now_slot,
            config.oracle_max_age_sec as u64,
            config.oracle_program,
        )->Ok_0.price
    } else {
        round.end_price
    }
}

/// The round as settlement leaves it: settled, with its winner (none when it
/// was never locked), the recorded end price, and the fee split of its pool.
pub open spec fn settled_round(round: Round, config: GlobalConfig, end_price: i64) -> Round {
    Round {
        status: ROUND_SETTLED,
        winner_side: if round.status == ROUND_LOCKED {
            winner_of(round.up_total, round.down_total, round.start_price, end_price)
        } else {
            SIDE_NONE
        },
        end_price,
        fee_lamports: settle_fee(round, config) as u64,
        distributable_lamports: (round.up_total + round.down_total - settle_fee(round, config))
            as u64,
        ..round
    }
}

/// Why a settlement is rejected, if it is: pause, timing, terminal status,
/// the oracle read (only for a locked round), the overflow-checked pool and
/// fee arithmetic, then the fee withdrawal from the vaults.
pub open spec fn settle_round_error(
    config: GlobalConfig,
    now: i64,
    now_slot: u64,
    round: Round,
    oracle_key: u64,
    oracle_owner: u64,
    oracle_data: Seq<u8>,
    up_vault_lamports: u64,
    down_vault_lamports: u64,
    treasury_lamports: u64,
) -> Option<PanchoError> {
    if config.paused {
        Some(PanchoError::ProtocolPaused)
    } else if now < round.end_ts {
        Some(PanchoError::TooEarlyToSettle)
    } else if round.status == ROUND_SETTLED {
        Some(PanchoError::RoundAlreadySettled)
    } else if round.status == ROUND_LOCKED && oracle_read(
        oracle_key,
        oracle_owner,
        oracle_data,
        round.oracle_price_account,
        now_slot,
        config.oracle_max_age_sec as u64,
        config.oracle_program,
    ) is Err {
        Some(
            oracle_read(
                oracle_key,
                oracle_owner,
                oracle_data,
                round.oracle_price_account,
                now_slot,
                config.oracle_max_age_sec as u64,
                config.oracle_program,
            )->Err_0,
        )
    } else if round.up_total + round.down_total > u64::MAX {
        Some(PanchoError::MathOverflow)
    } else if (round.up_total + round.down_total) * config.fee_bps > u64::MAX {
        Some(PanchoError::MathOverflow)
    } else {
        vault_transfer_error(
            up_vault_lamports,
            down_vault_lamports,
            treasury_lamports,
            settle_fee(round, config) as u64,
        )
    }
}

/// Settles a round once its end time has passed: fixes the winner, splits
/// the pool into fee and distributable, and withdraws the fee from the two
/// vaults to the treasury.
///
/// A round that is still open — its lock window was missed — settles
/// directly with no winner and no oracle read; a locked round reads the
/// oracle for its end price and compares it with the start price.  Settling
/// an already settled round fails cleanly and extracts no second fee.  On
/// any rejection nothing changes.
pub fn settle_round(
    config: &GlobalConfig,
    now: i64,
    now_slot: u64,
    round: &mut Round,
    round_key: u64,
    oracle_key: u64,
    oracle_owner: u64,
    oracle_data: &[u8],
    up_vault_lamports: &mut u64,
    down_vault_lamports: &mut u64,
    treasury_lamports: &mut u64,
) -> (r: Result<RoundSettled, PanchoError>)
    requires
        config.wf(),
        old(round).wf(),
    ensures
        r is Ok <==> settle_round_error(
            *config,
            now,
            now_slot,
            *old(round),
            oracle_key,
            oracle_owner,
            oracle_data@,
            *old(up_vault_lamports),
            *old(down_vault_lamports),
            *old(treasury_lamports),
        ) is None,
        r is Err ==> Some(r->Err_0) == settle_round_error(
            *config,
            now,
            now_slot,
            *old(round),
            oracle_key,
            oracle_owner,
            oracle_data@,
            *old(up_vault_lamports),
            *old(down_vault_lamports),
            *old(treasury_lamports),
        ),
        r is Ok ==> *final(round) == settled_round(
            *old(round),
            *config,
            settle_end_price(*config, now_slot, *old(round), oracle_key, oracle_owner, oracle_data@),
        ),
        r is Ok ==> final(round).wf(),
        r is Ok ==> *final(up_vault_lamports) == *old(up_vault_lamports) - up_share(
            *old(up_vault_lamports),
            final(round).fee_lamports,
        ),
        r is Ok ==> *final(down_vault_lamports) == *old(down_vault_lamports) - down_share(
            *old(up_vault_lamports),
            *old(down_vault_lamports),
            final(round).fee_lamports,
        ),
        r is Ok ==> *final(treasury_lamports) == *old(treasury_lamports)
            + final(round).fee_lamports,
        r is Ok ==> r->Ok_0 == (RoundSettled {
            round: round_key,
            winner_side: final(round).winner_side,
            start_price: old(round).start_price,
            end_price: final(round).end_price,
            fee_lamports: final(round).fee_lamports,
            distributable_lamports: final(round).distributable_lamports,
            settled_at: now,
        }),
        r is Err ==> *final(round) == *old(round)
            && *final(up_vault_lamports) == *old(up_vault_lamports)
            && *final(down_vault_lamports) == *old(down_vault_lamports)
            && *final(treasury_lamports) == *old(treasury_lamports),
{
    if config.paused {
        return Err(PanchoError::ProtocolPaused);
    }
    if now < round.end_ts {
        return Err(PanchoError::TooEarlyToSettle);
    }
    if round.status == ROUND_SETTLED {
        return Err(PanchoError::RoundAlreadySettled);
    }
    let mut end_price: i64 = round.end_price;
    let mut winner: u8 = SIDE_NONE;
    if round.status == ROUND_LOCKED {
        let price: OraclePrice = match read_legacy_pyth_price(
            oracle_key,
            oracle_owner,
            oracle_data,
            round.oracle_price_account,
            now_slot,
            config.oracle_max_age_sec as u64,
            config.oracle_program,
        ) {
            Ok(p) => p,
            Err(e) => return Err(e),
        };
        end_price = price.price;
        if round.up_total == 0 || round.down_total == 0 || round.start_price == end_price {
            winner = SIDE_NONE;
        } else if end_price > round.start_price {
            winner = SIDE_UP;
        } else {
            winner = SIDE_DOWN;
        }
    }
    let total: u64 = match round.up_total.checked_add(round.down_total) {
        Some(t) => t,
        None => return Err(PanchoError::MathOverflow),
    };
    let scaled: u64 = match total.checked_mul(config.fee_bps as u64) {
        Some(s) => s,
        None => return Err(PanchoError::MathOverflow),
    };
    let fee: u64 = scaled / BPS_DENOMINATOR;
    proof {
        lemma_fee_le_total(total as int, config.fee_bps as int);
    }
    let distributable: u64 = total - fee;
    match transfer_from_vaults(up_vault_lamports, down_vault_lamports, treasury_lamports, fee) {
        Ok(()) => (),
        Err(e) => return Err(e),
    }
    round.status = ROUND_SETTLED;
    round.winner_side = winner;
    round.end_price = end_price;
    round.fee_lamports = fee;
    round.distributable_lamports = distributable;
    Ok(
        RoundSettled {
            round: round_key,
            winner_side: winner,
            start_price: round.start_price,
            end_price,
            fee_lamports: fee,
            distributable_lamports: distributable,
            settled_at: now,
        },
    )
}

/// Why a claim is rejected, if it is: the round must be settled, the
/// position unclaimed with a positive stake, the payout arithmetic must not
/// overflow, and a positive payout must be withdrawable from the vaults.
pub open spec fn claim_error(
    round: Round,
    position: Position,
    up_vault_lamports: u64,
    down_vault_lamports: u64,
    user_lamports: u64,
) -> Option<PanchoError> {
    if round.status != ROUND_SETTLED {
        Some(PanchoError::RoundNotSettled)
    } else if position.claimed {
        Some(PanchoError::AlreadyClaimed)
    } else if position.amount == 0 {
        Some(PanchoError::NothingToClaim)
    } else if claim_payout_overflows(round, position.side, position.amount) {
        Some(PanchoError::MathOverflow)
    } else if claim_payout_spec(round, position.side, position.amount) > 0 {
        vault_transfer_error(
            up_vault_lamports,
            down_vault_lamports,
            user_lamports,
            claim_payout_spec(round, position.side, position.amount) as u64,
        )
    } else {
        None
    }
}

/// Pays a position of a settled round what the settlement formula owes it —
/// possibly nothing, for a losing side — and marks it claimed, exactly once.
///
/// The payout is withdrawn from the two vaults to the position's owner; a
/// second claim on the same position is rejected and moves nothing.  On any
/// rejection nothing changes.
pub fn claim(
    round: &Round,
    round_key: u64,
    position: &mut Position,
    up_vault_lamports: &mut u64,
    down_vault_lamports: &mut u64,
    user_lamports: &mut u64,
) -> (r: Result<Claimed, PanchoError>)
    requires
        round.wf(),
    ensures
        r is Ok <==> claim_error(
            *round,
            *old(position),
            *old(up_vault_lamports),
            *old(down_vault_lamports),
            *old(user_lamports),
        ) is None,
        r is Err ==> Some(r->Err_0) == claim_error(
            *round,
            *old(position),
            *old(up_vault_lamports),
            *old(down_vault_lamports),
            *old(user_lamports),
        ),
        r is Ok ==> *final(position) == (Position { claimed: true, ..*old(position) }),
        r is Ok ==> r->Ok_0 == (Claimed {
            round: round_key,
            user: old(position).user,
            side: old(position).side,
            stake: old(position).amount,
            payout: claim_payout_spec(*round, old(position).side, old(position).amount) as u64,
        }),
        r is Ok ==> *final(user_lamports) == *old(user_lamports) + claim_payout_spec(
            *round,
            old(position).side,
            old(position).amount,
        ),
        r is Ok ==> *final(up_vault_lamports) == *old(up_vault_lamports) - up_share(
            *old(up_vault_lamports),
            claim_payout_spec(*round, old(position).side, old(position).amount) as u64,
        ),
        r is Ok ==> *final(down_vault_lamports) == *old(down_vault_lamports) - down_share(
            *old(up_vault_lamports),
            *old(down_vault_lamports),
            claim_payout_spec(*round, old(position).side, old(position).amount) as u64,
        ),
        r is Err ==> *final(position) == *old(position)
            && *final(up_vault_lamports) == *old(up_vault_lamports)
            && *final(down_vault_lamports) == *old(down_vault_lamports)
            && *final(user_lamports) == *old(user_lamports),
{
    if round.status != ROUND_SETTLED {
        return Err(PanchoError::RoundNotSettled);
    }
    if position.claimed {
        return Err(PanchoError::AlreadyClaimed);
    }
    if position.amount == 0 {
        return Err(PanchoError::NothingToClaim);
    }
    let payout: u64 = if round.winner_side == SIDE_NONE {
        let total: u64 = round.up_total + round.down_total;
        match proportion(position.amount, round.distributable_lamports, total) {
            Ok(p) => p,
            Err(e) => return Err(e),
        }
    } else if position.side == round.winner_side {
        let winner_total: u64 = if round.winner_side == SIDE_UP {
            round.up_total
        } else {
            round.down_total
        };
        match proportion(position.amount, round.distributable_lamports, winner_total) {
            Ok(p) => p,
            Err(e) => return Err(e),
        }
    } else {
        0
    };
    if payout > 0 {
        match transfer_from_vaults(up_vault_lamports, down_vault_lamports, user_lamports, payout) {
            Ok(()) => (),
            Err(e) => return Err(e),
        }
    }
    position.claimed = true;
    Ok(
        Claimed {
            round: round_key,
            user: position.user,
            side: position.side,
            stake: position.amount,
            payout,
        },
    )
}

} // verus!
