use pancho_pvp::errors::PanchoError;
use pancho_pvp::oracle::parse_legacy_pyth_price_account;
use pancho_pvp::oracle::read_legacy_pyth_price;
use pancho_pvp::oracle::OraclePrice;

const ORACLE_KEY: u64 = 99;
const ORACLE_PROGRAM: u64 = 77;

fn pyth_buffer(price: i64, expo: i32, status: u32, pub_slot: u64) -> Vec<u8> {
    let mut data = vec![0u8; 240];
    data[0..4].copy_from_slice(&0xa1b2c3d4u32.to_le_bytes());
    data[4..8].copy_from_slice(&2u32.to_le_bytes());
    data[8..12].copy_from_slice(&3u32.to_le_bytes());
    data[20..24].copy_from_slice(&expo.to_le_bytes());
    data[208..216].copy_from_slice(&price.to_le_bytes());
    data[224..228].copy_from_slice(&status.to_le_bytes());
    data[232..240].copy_from_slice(&pub_slot.to_le_bytes());
    data
}

fn read_valid(data: &[u8], now_slot: u64, max_age: u64) -> Result<OraclePrice, PanchoError> {
    read_legacy_pyth_price(
        ORACLE_KEY,
        ORACLE_PROGRAM,
        data,
        ORACLE_KEY,
        now_slot,
        max_age,
        ORACLE_PROGRAM,
    )
}

#[test]
fn parse_rejects_short_buffer() {
    let data = vec![0u8; 239];
    assert!(parse_legacy_pyth_price_account(&data).is_none());
}

#[test]
fn parse_rejects_empty_buffer() {
    let data: Vec<u8> = Vec::new();
    assert!(parse_legacy_pyth_price_account(&data).is_none());
}

#[test]
fn parse_rejects_wrong_magic() {
    let mut data = pyth_buffer(1, 0, 1, 0);
    data[0..4].copy_from_slice(&0xdeadbeefu32.to_le_bytes());
    assert!(parse_legacy_pyth_price_account(&data).is_none());
}

#[test]
fn parse_rejects_wrong_version() {
    let mut data = pyth_buffer(1, 0, 1, 0);
    data[4..8].copy_from_slice(&3u32.to_le_bytes());
    assert!(parse_legacy_pyth_price_account(&data).is_none());
}

#[test]
fn parse_rejects_wrong_account_type() {
    let mut data = pyth_buffer(1, 0, 1, 0);
    data[8..12].copy_from_slice(&2u32.to_le_bytes());
    assert!(parse_legacy_pyth_price_account(&data).is_none());
}

#[test]
fn parse_reads_fields_exactly() {
    let data = pyth_buffer(-123_456_789, -8, 1, 5_555);
    let parsed = parse_legacy_pyth_price_account(&data).unwrap();
    assert_eq!(parsed.price, -123_456_789);
    assert_eq!(parsed.expo, -8);
    assert_eq!(parsed.status, 1);
    assert_eq!(parsed.pub_slot, 5_555);
}

#[test]
fn parse_reads_extreme_values() {
    let data = pyth_buffer(i64::MIN, i32::MAX, 1, u64::MAX);
    let parsed = parse_legacy_pyth_price_account(&data).unwrap();
    assert_eq!(parsed.price, i64::MIN);
    assert_eq!(parsed.expo, i32::MAX);
    assert_eq!(parsed.pub_slot, u64::MAX);
}

#[test]
fn read_rejects_unexpected_account() {
    let data = pyth_buffer(10, 0, 1, 0);
    let r = read_legacy_pyth_price(123, ORACLE_PROGRAM, &data, ORACLE_KEY, 0, 100, ORACLE_PROGRAM);
    assert_eq!(r, Err(PanchoError::UnexpectedOracleAccount));
}

#[test]
fn read_rejects_wrong_owner() {
    let data = pyth_buffer(10, 0, 1, 0);
    let r = read_legacy_pyth_price(ORACLE_KEY, 123, &data, ORACLE_KEY, 0, 100, ORACLE_PROGRAM);
    assert_eq!(r, Err(PanchoError::InvalidOracleOwner));
}

#[test]
fn read_rejects_short_payload() {
    let data = vec![0u8; 100];
    assert_eq!(read_valid(&data, 0, 100), Err(PanchoError::InvalidOraclePrice));
}

#[test]
fn read_rejects_non_trading_status() {
    let data = pyth_buffer(10, 0, 0, 0);
    assert_eq!(read_valid(&data, 0, 100), Err(PanchoError::InvalidOraclePrice));
}

#[test]
fn read_rejects_stale_publish_slot() {
    let data = pyth_buffer(10, 0, 1, 800);
    assert_eq!(read_valid(&data, 1_000, 199), Err(PanchoError::StaleOraclePrice));
}

#[test]
fn read_accepts_age_at_bound() {
    let data = pyth_buffer(10, 0, 1, 800);
    assert_eq!(read_valid(&data, 1_000, 200), Ok(OraclePrice { price: 10, expo: 0 }));
}

#[test]
fn read_accepts_future_publish_slot() {
    let data = pyth_buffer(10, -2, 1, 2_000);
    assert_eq!(read_valid(&data, 1_000, 0), Ok(OraclePrice { price: 10, expo: -2 }));
}

#[test]
fn read_returns_price_and_expo() {
    let data = pyth_buffer(-42, -5, 1, 10);
    assert_eq!(read_valid(&data, 10, 0), Ok(OraclePrice { price: -42, expo: -5 }));
}
