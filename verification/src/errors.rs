//! The typed rejections that every operation can answer with.

use vstd::prelude::*;

verus! {

/// Every failure of an operation, as a typed, non-retryable rejection of that
/// single call.  No failure mutates any record.
#[derive(Clone, Copy, Debug, PartialEq, Eq, Structural)]
pub enum PanchoError {
    /// Fee rate above the 1500 bps cap.
    InvalidFeeBps,
    /// The protocol pause flag is set.
    ProtocolPaused,
    /// `end_ts <= lock_ts`, or `lock_ts` not in the future.
    InvalidSchedule,
    /// Side tag is neither up nor down.
    InvalidSide,
    /// A stake of zero lamports.
    InvalidStake,
    /// Join on a round that is no longer open.
    RoundNotOpen,
    /// Join at or after `lock_ts`: the join window has closed.
    RoundLocked,
    /// A later join named a different side than the position already holds.
    PositionSideMismatch,
    /// The position was already claimed.
    AlreadyClaimed,
    /// Overflow in totals, fees or payouts; fatal to the call.
    MathOverflow,
    /// Lock on a round that is no longer open.
    RoundAlreadyLocked,
    /// Lock before `lock_ts`.
    TooEarlyToLock,
    /// Lock after the grace window `[lock_ts, lock_ts + 45]` has passed.
    LockWindowExpired,
    /// Settle before `end_ts`.
    TooEarlyToSettle,
    /// Settle on a round that is already settled.
    RoundAlreadySettled,
    /// The two vaults together cannot cover a requested withdrawal.
    InsufficientVaultLiquidity,
    /// Claim on a round that is not settled yet.
    RoundNotSettled,
    /// Claim on a position with a zero stake.
    NothingToClaim,
    /// A vault record bound to a different round.
    VaultRoundMismatch,
    /// A position record bound to a different round.
    PositionRoundMismatch,
    /// A position record owned by a different user.
    PositionUserMismatch,
    /// Oracle payload too short, wrong magic, version or type, or not trading.
    InvalidOraclePrice,
    /// The referenced oracle account is not the one the round was bound to.
    UnexpectedOracleAccount,
    /// The oracle account is not owned by the expected oracle program.
    InvalidOracleOwner,
    /// The oracle's publish slot is older than the configured maximum age.
    StaleOraclePrice,
}

} // verus!
