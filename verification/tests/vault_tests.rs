use pancho_pvp::errors::PanchoError;
use pancho_pvp::vaults::transfer_from_vaults;

#[test]
fn zero_amount_moves_nothing() {
    let mut up = 100u64;
    let mut down = 50u64;
    let mut to = 7u64;
    assert_eq!(transfer_from_vaults(&mut up, &mut down, &mut to, 0), Ok(()));
    assert_eq!((up, down, to), (100, 50, 7));
}

#[test]
fn drains_up_vault_first() {
    let mut up = 100u64;
    let mut down = 100u64;
    let mut to = 0u64;
    assert_eq!(transfer_from_vaults(&mut up, &mut down, &mut to, 60), Ok(()));
    assert_eq!((up, down, to), (40, 100, 60));
}

#[test]
fn spills_remainder_into_down_vault() {
    let mut up = 100u64;
    let mut down = 100u64;
    let mut to = 5u64;
    assert_eq!(transfer_from_vaults(&mut up, &mut down, &mut to, 150), Ok(()));
    assert_eq!((up, down, to), (0, 50, 155));
}

#[test]
fn drains_both_vaults_exactly() {
    let mut up = 100u64;
    let mut down = 100u64;
    let mut to = 0u64;
    assert_eq!(transfer_from_vaults(&mut up, &mut down, &mut to, 200), Ok(()));
    assert_eq!((up, down, to), (0, 0, 200));
}

#[test]
fn works_with_empty_up_vault() {
    let mut up = 0u64;
    let mut down = 80u64;
    let mut to = 0u64;
    assert_eq!(transfer_from_vaults(&mut up, &mut down, &mut to, 30), Ok(()));
    assert_eq!((up, down, to), (0, 50, 30));
}

#[test]
fn rejects_shortfall_and_moves_nothing() {
    let mut up = 100u64;
    let mut down = 100u64;
    let mut to = 9u64;
    assert_eq!(
        transfer_from_vaults(&mut up, &mut down, &mut to, 250),
        Err(PanchoError::InsufficientVaultLiquidity)
    );
    assert_eq!((up, down, to), (100, 100, 9));
}

#[test]
fn rejects_destination_overflow_and_moves_nothing() {
    let mut up = 5u64;
    let mut down = 0u64;
    let mut to = u64::MAX;
    assert_eq!(
        transfer_from_vaults(&mut up, &mut down, &mut to, 1),
        Err(PanchoError::MathOverflow)
    );
    assert_eq!((up, down), (5, 0));
    assert_eq!(to, u64::MAX);
}
