//! Escrow vault withdrawals.
//!
//! A round's two side pools are accounted jointly for fee extraction and
//! push refunds even though they are held as two separate balances, so a
//! withdrawal drains the up vault first and the down vault for any
//! remainder.

use vstd::prelude::*;
use crate::errors::PanchoError;

verus! {

/// How much of a withdrawal of `amount` the up vault covers: all of it if it
/// can, else its whole balance.
pub open spec fn up_share(up: u64, amount: u64) -> int {
    if up < amount {
        up as int
    } else {
        amount as int
    }
}

/// How much of the withdrawal the down vault covers: the remainder after the
/// up vault, capped at its balance.
pub open spec fn down_share(up: u64, down: u64, amount: u64) -> int {
    let rest = amount - up_share(up, amount);
    if down < rest {
        down as int
    } else {
        rest
    }
}

/// The outcome of a two-vault withdrawal: rejected when crediting the
/// destination would overflow, or when both vaults together cannot cover the
/// amount; accepted otherwise.  A zero amount always succeeds.
pub open spec fn vault_transfer_error(up: u64, down: u64, to: u64, amount: u64) -> Option<
    PanchoError,
> {
    if amount == 0 {
        None
    } else if to + up_share(up, amount) + down_share(up, down, amount) > u64::MAX {
        Some(PanchoError::MathOverflow)
    } else if up + down < amount {
        Some(PanchoError::InsufficientVaultLiquidity)
    } else {
        None
    }
}

/// Withdraws `amount` from the pair of side vaults to a destination balance,
/// up vault first, then the down vault for any remainder.  The step is
/// atomic: on any rejection no balance changes.  Running short after
/// draining both vaults signals a bookkeeping bug upstream; it is answered
/// with a liquidity error, never with a partial withdrawal.
pub fn transfer_from_vaults(
    up_vault_lamports: &mut u64,
    down_vault_lamports: &mut u64,
    to_lamports: &mut u64,
    amount: u64,
) -> (r: Result<(), PanchoError>)
    ensures
        r is Ok <==> vault_transfer_error(
            *old(up_vault_lamports),
            *old(down_vault_lamports),
            *old(to_lamports),
            amount,
        ) is None,
        r is Err ==> Some(r->Err_0) == vault_transfer_error(
            *old(up_vault_lamports),
            *old(down_vault_lamports),
            *old(to_lamports),
            amount,
        ),
        r is Ok ==> *final(up_vault_lamports) == *old(up_vault_lamports) - up_share(
            *old(up_vault_lamports),
            amount,
        ),
        r is Ok ==> *final(down_vault_lamports) == *old(down_vault_lamports) - down_share(
            *old(up_vault_lamports),
            *old(down_vault_lamports),
            amount,
        ),
        r is Ok ==> *final(to_lamports) == *old(to_lamports) + amount,
        r is Err ==> *final(up_vault_lamports) == *old(up_vault_lamports)
            && *final(down_vault_lamports) == *old(down_vault_lamports)
            && *final(to_lamports) == *old(to_lamports),
{
    if amount == 0 {
        return Ok(());
    }
    let take_up: u64 = if *up_vault_lamports < amount {
        *up_vault_lamports
    } else {
        amount
    };
    let remaining: u64 = amount - take_up;
    let take_down: u64 = if *down_vault_lamports < remaining {
        *down_vault_lamports
    } else {
        remaining
    };
    let after_up: u64 = match (*to_lamports).checked_add(take_up) {
        Some(v) => v,
        None => return Err(PanchoError::MathOverflow),
    };
    let after_both: u64 = match after_up.checked_add(take_down) {
        Some(v) => v,
        None => return Err(PanchoError::MathOverflow),
    };
    if remaining - take_down > 0 {
        return Err(PanchoError::InsufficientVaultLiquidity);
    }
    *up_vault_lamports = *up_vault_lamports - take_up;
    *down_vault_lamports = *down_vault_lamports - take_down;
    *to_lamports = after_both;
    Ok(())
}

} // verus!
