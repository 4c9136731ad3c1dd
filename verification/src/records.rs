//! The persisted records: config, round, vault and position.
//!
//! The hosting ledger stores one record per deterministically derived address
//! and serializes all writes to the same record; addresses are modelled here
//! as plain `u64` account identifiers supplied by the host.

use vstd::prelude::*;
use crate::ROUND_OPEN;
use crate::ROUND_LOCKED;
use crate::ROUND_SETTLED;
use crate::SIDE_UP;
use crate::SIDE_DOWN;
use crate::SIDE_NONE;

verus! {

/// The process-wide configuration singleton.  Mutated only by the
/// administrator; the host checks the administrator's signature before any
/// call that writes it.
#[derive(Clone, Copy, Debug)]
pub struct GlobalConfig {
    /// The administrator's account.
    pub admin: u64,
    /// Destination of extracted fees.
    pub treasury: u64,
    /// The program expected to own the oracle price account.
    pub oracle_program: u64,
    /// Fee rate in basis points; at most 1500.
    pub fee_bps: u16,
    /// Maximum accepted oracle age, in slots.
    pub oracle_max_age_sec: u32,
    /// While set, every round operation but claim is rejected.
    pub paused: bool,
}

impl GlobalConfig {
    /// The configuration invariant: the fee rate never exceeds 15%.
    /// Established by `initialize_config` and preserved by `set_config`.
    pub open spec fn wf(self) -> bool {
        self.fee_bps <= 1500
    }
}

/// One up/down contest: schedule, oracle binding, aggregated stakes,
/// lifecycle status and settlement outputs.  The status only ever advances
/// (open to locked to settled, or open straight to settled).
#[derive(Clone, Copy, Debug)]
pub struct Round {
    /// Identity, together with `market`.
    pub round_id: i64,
    /// Market tag.
    pub market: u8,
    /// The oracle feed this round is bound to.
    pub feed_id: [u8; 32],
    /// The oracle price account this round was bound to at creation.
    pub oracle_price_account: u64,
    /// Joins close, and the lock window opens, at this time.
    pub lock_ts: i64,
    /// Settlement becomes legal at this time.
    pub end_ts: i64,
    /// Price captured at lock.
    pub start_price: i64,
    /// Price captured at settlement.
    pub end_price: i64,
    /// Exponent of the captured prices.
    pub expo: i32,
    /// One of `ROUND_OPEN`, `ROUND_LOCKED`, `ROUND_SETTLED`.
    pub status: u8,
    /// `SIDE_NONE` until settlement; then the winning side, or `SIDE_NONE` for a push.
    pub winner_side: u8,
    /// Sum of all stakes on the up side.
    pub up_total: u64,
    /// Sum of all stakes on the down side.
    pub down_total: u64,
    /// Fee extracted at settlement.
    pub fee_lamports: u64,
    /// Pool left for claims after the fee.
    pub distributable_lamports: u64,
}

impl Round {
    /// Well-formedness of a persisted round: tags are in range, and once the
    /// round is settled its two totals were summed without overflow (the
    /// settlement that set the status checked exactly that), so claims may
    /// add them again.
    pub open spec fn wf(self) -> bool {
        &&& (self.status == ROUND_OPEN || self.status == ROUND_LOCKED
            || self.status == ROUND_SETTLED)
        &&& (self.winner_side == SIDE_UP || self.winner_side == SIDE_DOWN
            || self.winner_side == SIDE_NONE)
        &&& (self.status == ROUND_SETTLED ==> self.up_total + self.down_total <= u64::MAX)
    }
}

/// One escrow record per (round, side).  Its live lamport balance is held by
/// the hosting ledger, not by this record.
#[derive(Clone, Copy, Debug)]
pub struct Vault {
    /// The round this vault belongs to.
    pub round: u64,
    /// `SIDE_UP` or `SIDE_DOWN`.
    pub side: u8,
}

/// A participant's cumulative stake on one side of one round.
#[derive(Clone, Copy, Debug)]
pub struct Position {
    /// The round this position belongs to.
    pub round: u64,
    /// The staking participant.
    pub user: u64,
    /// The side this position backs, fixed at the first join.
    pub side: u8,
    /// Sum of this user's stakes on this side of this round.
    pub amount: u64,
    /// Set exactly once, by a successful claim.
    pub claimed: bool,
}

} // verus!
