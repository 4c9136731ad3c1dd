//! Settlement engine for a binary-outcome prediction market.
//!
//! Participants stake lamports on whether a price feed ends higher ("up") or
//! lower ("down") than it stood when the round locked.  An administrator
//! creates rounds, anyone may lock them inside a short grace window and settle
//! them once their end time has passed, and participants then withdraw
//! pro-rata payouts.  This crate holds the round lifecycle state machine, the
//! escrow accounting, the oracle price parser and the payout arithmetic, all
//! verified; the hosting ledger (account storage, balance transfers, the
//! clock) is the caller's concern and hands these functions plain values.

use vstd::prelude::*;

pub mod errors;
pub mod records;
pub mod events;
pub mod oracle;
pub mod settlement;
pub mod vaults;
pub mod ops;
pub mod laws;

verus! {

/// Basis-point denominator: a fee of `fee_bps` takes `fee_bps / 10_000` of the pool.
pub const BPS_DENOMINATOR: u64 = 10_000;

/// Side tag: a stake on the price going up.
pub const SIDE_UP: u8 = 0;

/// Side tag: a stake on the price going down.
pub const SIDE_DOWN: u8 = 1;

/// Side tag: no winning side (round not settled yet, or a push).
pub const SIDE_NONE: u8 = 255;

/// Round status: open for joins.
pub const ROUND_OPEN: u8 = 0;

/// Round status: locked, start price captured.
pub const ROUND_LOCKED: u8 = 1;

/// Round status: settled; terminal.
pub const ROUND_SETTLED: u8 = 2;

/// Seconds after `lock_ts` during which a lock is still accepted.
pub const LOCK_GRACE_SECONDS: i64 = 45;

} // verus!
