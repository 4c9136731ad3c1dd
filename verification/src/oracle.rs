//! Oracle price reader: parses and validates a fixed-layout binary price
//! record (legacy Pyth-style price account).
//!
//! The payload is a little-endian byte layout: magic at offset 0, version at
//! 4, account type at 8, exponent at 20, aggregate price at 208, aggregate
//! status at 224 and publish slot at 232; at least 240 bytes in all.

use vstd::prelude::*;
use crate::errors::PanchoError;

verus! {

/// Expected magic number at offset 0.
pub const LEGACY_PYTH_MAGIC: u32 = 0xa1b2c3d4;

/// Expected layout version at offset 4.
pub const LEGACY_PYTH_VERSION_2: u32 = 2;

/// Expected account type at offset 8: a price account.
pub const LEGACY_PYTH_ACCOUNT_TYPE_PRICE: u32 = 3;

/// Aggregate status meaning the feed is live and trading.
pub const LEGACY_PYTH_STATUS_TRADING: u32 = 1;

pub const LEGACY_PYTH_OFFSET_MAGIC: usize = 0;
pub const LEGACY_PYTH_OFFSET_VERSION: usize = 4;
pub const LEGACY_PYTH_OFFSET_ACCOUNT_TYPE: usize = 8;
pub const LEGACY_PYTH_OFFSET_EXPO: usize = 20;
pub const LEGACY_PYTH_OFFSET_AGG_PRICE: usize = 208;
pub const LEGACY_PYTH_OFFSET_AGG_STATUS: usize = 224;
pub const LEGACY_PYTH_OFFSET_AGG_PUB_SLOT: usize = 232;

/// Minimum accepted payload length.
pub const LEGACY_PYTH_MIN_LEN: usize = 240;

/// The unsigned value of the four little-endian bytes at `off`.
pub open spec fn u32_le_at(s: Seq<u8>, off: int) -> int {
    s[off] + 0x100 * s[off + 1] + 0x1_0000 * s[off + 2] + 0x100_0000 * s[off + 3]
}

/// The unsigned value of the eight little-endian bytes at `off`.
pub open spec fn u64_le_at(s: Seq<u8>, off: int) -> int {
    u32_le_at(s, off) + 0x1_0000_0000 * u32_le_at(s, off + 4)
}

/// Two's-complement reading of an unsigned 32-bit value.
pub open spec fn as_signed_32(u: int) -> int {
    if u < 0x8000_0000 {
        u
    } else {
        u - 0x1_0000_0000
    }
}

/// Two's-complement reading of an unsigned 64-bit value.
pub open spec fn as_signed_64(u: int) -> int {
    if u < 0x8000_0000_0000_0000 {
        u
    } else {
        u - 0x1_0000_0000_0000_0000
    }
}

/// Reads the four bytes at `offset` as a little-endian unsigned integer.
/// Returns nothing when they do not all lie inside the buffer.
pub fn read_u32_le(data: &[u8], offset: usize) -> (r: Option<u32>)
    ensures
        r is Some <==> offset + 4 <= data@.len(),
        r is Some ==> r->0 == u32_le_at(data@, offset as int),
{
    if data.len() < 4 || offset > data.len() - 4 {
        return None;
    }
    let b0: u32 = data[offset] as u32;
    let b1: u32 = data[offset + 1] as u32;
    let b2: u32 = data[offset + 2] as u32;
    let b3: u32 = data[offset + 3] as u32;
    Some(b0 + b1 * 0x100 + b2 * 0x1_0000 + b3 * 0x100_0000)
}

/// Reads the four bytes at `offset` as a little-endian signed integer.
pub fn read_i32_le(data: &[u8], offset: usize) -> (r: Option<i32>)
    ensures
        r is Some <==> offset + 4 <= data@.len(),
        r is Some ==> r->0 == as_signed_32(u32_le_at(data@, offset as int)),
{
    match read_u32_le(data, offset) {
        None => None,
        Some(u) => {
            if u <= 0x7fff_ffff {
                Some(u as i32)
            } else {
                let m: u32 = u32::MAX - u;
                Some(-(m as i32) - 1)
            }
        },
    }
}

/// Reads the eight bytes at `offset` as a little-endian unsigned integer.
pub fn read_u64_le(data: &[u8], offset: usize) -> (r: Option<u64>)
    ensures
        r is Some <==> offset + 8 <= data@.len(),
        r is Some ==> r->0 == u64_le_at(data@, offset as int),
{
    if data.len() < 8 || offset > data.len() - 8 {
        return None;
    }
    let lo: u32 = match read_u32_le(data, offset) {
        Some(v) => v,
        None => return None,
    };
    let hi: u32 = match read_u32_le(data, offset + 4) {
        Some(v) => v,
        None => return None,
    };
    Some(lo as u64 + (hi as u64) * 0x1_0000_0000)
}

/// Reads the eight bytes at `offset` as a little-endian signed integer.
pub fn read_i64_le(data: &[u8], offset: usize) -> (r: Option<i64>)
    ensures
        r is Some <==> offset + 8 <= data@.len(),
        r is Some ==> r->0 == as_signed_64(u64_le_at(data@, offset as int)),
{
    match read_u64_le(data, offset) {
        None => None,
        Some(u) => {
            if u <= 0x7fff_ffff_ffff_ffff {
                Some(u as i64)
            } else {
                let m: u64 = u64::MAX - u;
                Some(-(m as i64) - 1)
            }
        },
    }
}

/// The fields this engine reads out of a well-formed price payload.
#[derive(Clone, Copy, Debug, PartialEq, Eq, Structural)]
pub struct LegacyPythPrice {
    /// Aggregate price.
    pub price: i64,
    /// Price exponent.
    pub expo: i32,
    /// Aggregate status code.
    pub status: u32,
    /// Slot at which the aggregate was published.
    pub pub_slot: u64,
}

/// A payload is accepted when it is long enough and its magic, version and
/// account type match the legacy Pyth price layout.
pub open spec fn pyth_payload_accepted(s: Seq<u8>) -> bool {
    &&& s.len() >= LEGACY_PYTH_MIN_LEN
    &&& u32_le_at(s, LEGACY_PYTH_OFFSET_MAGIC as int) == LEGACY_PYTH_MAGIC
    &&& u32_le_at(s, LEGACY_PYTH_OFFSET_VERSION as int) == LEGACY_PYTH_VERSION_2
    &&& u32_le_at(s, LEGACY_PYTH_OFFSET_ACCOUNT_TYPE as int) == LEGACY_PYTH_ACCOUNT_TYPE_PRICE
}

/// Parses a raw payload.  Returns nothing when the payload is too short or
/// its magic, version or account type is wrong; otherwise returns the price,
/// exponent, status and publish slot read at their fixed offsets.
pub fn parse_legacy_pyth_price_account(data: &[u8]) -> (r: Option<LegacyPythPrice>)
    ensures
        r is Some <==> pyth_payload_accepted(data@),
        r is Some ==> r->0.price == as_signed_64(
            u64_le_at(data@, LEGACY_PYTH_OFFSET_AGG_PRICE as int),
        ),
        r is Some ==> r->0.expo == as_signed_32(u32_le_at(data@, LEGACY_PYTH_OFFSET_EXPO as int)),
        r is Some ==> r->0.status == u32_le_at(data@, LEGACY_PYTH_OFFSET_AGG_STATUS as int),
        r is Some ==> r->0.pub_slot == u64_le_at(data@, LEGACY_PYTH_OFFSET_AGG_PUB_SLOT as int),
{
    if data.len() < LEGACY_PYTH_MIN_LEN {
        return None;
    }
    let magic: u32 = match read_u32_le(data, LEGACY_PYTH_OFFSET_MAGIC) {
        Some(v) => v,
        None => return None,
    };
    if magic != LEGACY_PYTH_MAGIC {
        return None;
    }
    let version: u32 = match read_u32_le(data, LEGACY_PYTH_OFFSET_VERSION) {
        Some(v) => v,
        None => return None,
    };
    if version != LEGACY_PYTH_VERSION_2 {
        return None;
    }
    let account_type: u32 = match read_u32_le(data, LEGACY_PYTH_OFFSET_ACCOUNT_TYPE) {
        Some(v) => v,
        None => return None,
    };
    if account_type != LEGACY_PYTH_ACCOUNT_TYPE_PRICE {
        return None;
    }
    let price: i64 = match read_i64_le(data, LEGACY_PYTH_OFFSET_AGG_PRICE) {
        Some(v) => v,
        None => return None,
    };
    let expo: i32 = match read_i32_le(data, LEGACY_PYTH_OFFSET_EXPO) {
        Some(v) => v,
        None => return None,
    };
    let status: u32 = match read_u32_le(data, LEGACY_PYTH_OFFSET_AGG_STATUS) {
        Some(v) => v,
        None => return None,
    };
    let pub_slot: u64 = match read_u64_le(data, LEGACY_PYTH_OFFSET_AGG_PUB_SLOT) {
        Some(v) => v,
        None => return None,
    };
    Some(LegacyPythPrice { price, expo, status, pub_slot })
}

/// What a validated oracle read returns: the price and its exponent.
#[derive(Clone, Copy, Debug, PartialEq, Eq, Structural)]
pub struct OraclePrice {
    pub price: i64,
    pub expo: i32,
}

/// How many slots old the published aggregate is, saturating at zero for a
/// publish slot in the future.
pub open spec fn slot_age(now_slot: u64, pub_slot: int) -> int {
    if now_slot >= pub_slot {
        now_slot - pub_slot
    } else {
        0
    }
}

/// The full outcome of a validated oracle read: every rejection with the
/// exact state that causes it, or the price and exponent on success.
pub open spec fn oracle_read(
    oracle_key: u64,
    oracle_owner: u64,
    data: Seq<u8>,
    expected_oracle_key: u64,
    now_slot: u64,
    max_slot_age: u64,
    expected_oracle_program: u64,
) -> Result<OraclePrice, PanchoError> {
    if oracle_key != expected_oracle_key {
        Err(PanchoError::UnexpectedOracleAccount)
    } else if oracle_owner != expected_oracle_program {
        Err(PanchoError::InvalidOracleOwner)
    } else if !pyth_payload_accepted(data) {
        Err(PanchoError::InvalidOraclePrice)
    } else if u32_le_at(data, LEGACY_PYTH_OFFSET_AGG_STATUS as int) != LEGACY_PYTH_STATUS_TRADING {
        Err(PanchoError::InvalidOraclePrice)
    } else if slot_age(now_slot, u64_le_at(data, LEGACY_PYTH_OFFSET_AGG_PUB_SLOT as int))
        > max_slot_age {
        Err(PanchoError::StaleOraclePrice)
    } else {
        Ok(
            OraclePrice {
                price: as_signed_64(u64_le_at(data, LEGACY_PYTH_OFFSET_AGG_PRICE as int)) as i64,
                expo: as_signed_32(u32_le_at(data, LEGACY_PYTH_OFFSET_EXPO as int)) as i32,
            },
        )
    }
}

/// Validates that the referenced account is the one the round was bound to
/// and is owned by the expected oracle program, parses its payload, and
/// checks trading status and staleness.  `oracle_key`, `oracle_owner` and
/// `oracle_data` describe the account the caller actually referenced.
pub fn read_legacy_pyth_price(
    oracle_key: u64,
    oracle_owner: u64,
    oracle_data: &[u8],
    expected_oracle_key: u64,
    now_slot: u64,
    max_slot_age: u64,
    expected_oracle_program: u64,
) -> (r: Result<OraclePrice, PanchoError>)
    ensures
        r == oracle_read(
            oracle_key,
            oracle_owner,
            oracle_data@,
            expected_oracle_key,
            now_slot,
            max_slot_age,
            expected_oracle_program,
        ),
{
    if oracle_key != expected_oracle_key {
        return Err(PanchoError::UnexpectedOracleAccount);
    }
    if oracle_owner != expected_oracle_program {
        return Err(PanchoError::InvalidOracleOwner);
    }
    let parsed = match parse_legacy_pyth_price_account(oracle_data) {
        Some(p) => p,
        None => return Err(PanchoError::InvalidOraclePrice),
    };
    if parsed.status != LEGACY_PYTH_STATUS_TRADING {
        return Err(PanchoError::InvalidOraclePrice);
    }
    let age: u64 = if now_slot >= parsed.pub_slot {
        now_slot - parsed.pub_slot
    } else {
        0
    };
    if age > max_slot_age {
        return Err(PanchoError::StaleOraclePrice);
    }
    Ok(OraclePrice { price: parsed.price, expo: parsed.expo })
}

} // verus!
