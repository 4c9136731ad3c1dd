//! Events: one value returned per successful state-changing operation.
//!
//! The host emits them; together with the records they are the audit trail.

use vstd::prelude::*;

verus! {

/// A round was created.
#[derive(Clone, Copy, Debug, PartialEq, Eq, Structural)]
pub struct RoundCreated {
    pub round: u64,
    pub round_id: i64,
    pub market: u8,
    pub lock_ts: i64,
    pub end_ts: i64,
}

/// A stake entered a round.
#[derive(Clone, Copy, Debug, PartialEq, Eq, Structural)]
pub struct RoundJoined {
    pub round: u64,
    pub user: u64,
    pub side: u8,
    pub lamports: u64,
}

/// A round captured its start price.
#[derive(Clone, Copy, Debug, PartialEq, Eq, Structural)]
pub struct RoundLocked {
    pub round: u64,
    pub start_price: i64,
    pub expo: i32,
    pub locked_at: i64,
}

/// A round was settled: winner fixed, fee extracted.
#[derive(Clone, Copy, Debug, PartialEq, Eq, Structural)]
pub struct RoundSettled {
    pub round: u64,
    pub winner_side: u8,
    pub start_price: i64,
    pub end_price: i64,
    pub fee_lamports: u64,
    pub distributable_lamports: u64,
    pub settled_at: i64,
}

/// A position withdrew its payout (possibly zero) and was marked claimed.
#[derive(Clone, Copy, Debug, PartialEq, Eq, Structural)]
pub struct Claimed {
    pub round: u64,
    pub user: u64,
    pub side: u8,
    pub stake: u64,
    pub payout: u64,
}

} // verus!
