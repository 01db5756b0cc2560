use liquid_inheritance::amm;
use liquid_inheritance::errors::ProtocolError;
use liquid_inheritance::instructions::trigger_inheritance::calculate_fee;
use liquid_inheritance::state::{same_address, Inheritance};

#[test]
fn mint_one_share_per_lamport_when_vault_empty() {
    assert_eq!(Inheritance::calculate_token_to_mint(500, 0, 0), Ok(500));
    assert_eq!(Inheritance::calculate_token_to_mint(500, 0, 1000), Ok(500));
    assert_eq!(Inheritance::calculate_token_to_mint(500, 1000, 0), Ok(500));
}

#[test]
fn mint_pro_rata_rounds_down() {
    // 100 * 300 / 700 = 42.85...
    assert_eq!(Inheritance::calculate_token_to_mint(100, 700, 300), Ok(42));
    assert_eq!(Inheritance::calculate_token_to_mint(1_000, 2_000, 1_000), Ok(500));
}

#[test]
fn mint_result_wraps_modulo_2_64() {
    // u64::MAX * 3 / 1 does not fit in 64 bits: the result keeps its low 64 bits.
    let expected = ((u64::MAX as u128 * 3) as u64) as u64;
    assert_eq!(Inheritance::calculate_token_to_mint(u64::MAX, 1, 3), Ok(expected));
}

#[test]
fn lamports_to_return_pro_rata() {
    assert_eq!(Inheritance::calculate_lamports_to_return(42, 742, 342), Ok(91));
    assert_eq!(Inheritance::calculate_lamports_to_return(0, 742, 342), Ok(0));
    assert_eq!(
        Inheritance::calculate_lamports_to_return(u64::MAX, u64::MAX, u64::MAX),
        Ok(u64::MAX)
    );
}

#[test]
fn lamports_to_return_without_shares_is_math_overflow() {
    assert_eq!(
        Inheritance::calculate_lamports_to_return(10, 100, 0),
        Err(ProtocolError::MathOverflow)
    );
}

#[test]
fn tokens_to_burn_pro_rata() {
    assert_eq!(Inheritance::calculate_tokens_to_burn(250, 1_000, 400), Ok(100));
    assert_eq!(Inheritance::calculate_tokens_to_burn(1, 3, 1), Ok(0));
}

#[test]
fn tokens_to_burn_from_empty_vault_is_math_overflow() {
    assert_eq!(
        Inheritance::calculate_tokens_to_burn(250, 0, 400),
        Err(ProtocolError::MathOverflow)
    );
}

#[test]
fn fee_in_basis_points() {
    assert_eq!(calculate_fee(1_000_000, 250), 25_000);
    assert_eq!(calculate_fee(999, 1), 0);
    assert_eq!(calculate_fee(1_000, 10_000), 1_000);
    assert_eq!(calculate_fee(u64::MAX, u64::MAX), ((u64::MAX as u128 * u64::MAX as u128 / 10_000) as u64));
}

#[test]
fn deposit_then_redeem_gives_back_at_most_the_deposit() {
    let (assets, supply, deposit) = (700u64, 300u64, 100u64);
    let minted = Inheritance::calculate_token_to_mint(deposit, assets, supply).unwrap();
    let back = Inheritance::calculate_lamports_to_return(minted, assets + deposit, supply + minted).unwrap();
    assert_eq!(minted, 42);
    assert_eq!(back, 98);
    assert!(back <= deposit);
}

#[test]
fn deposit_into_vault_without_shares_can_gain() {
    // The one case the no-gain law leaves out: lamports in the vault, no shares.
    let minted = Inheritance::calculate_token_to_mint(10, 100, 0).unwrap();
    let back = Inheritance::calculate_lamports_to_return(minted, 110, minted).unwrap();
    assert_eq!(back, 110);
}

#[test]
fn error_codes_and_messages() {
    assert_eq!(ProtocolError::InvalidAdmin.code(), 6000);
    assert_eq!(ProtocolError::MathOverflow.code(), 6004);
    assert_eq!(ProtocolError::InvalidTokenProgram.code(), 6015);
    assert_eq!(ProtocolError::TimeElapsed.message(), "TimeElapsed");
    assert_eq!(ProtocolError::InvalidProgram.message(), "InvalidProtocolProgram");
    assert_eq!(amm::ProtocolError::DefaultError.message(), "DefaultError");
}

#[test]
fn addresses_compare_by_every_byte() {
    let a = [5u8; 32];
    let mut b = a;
    assert!(same_address(&a, &b));
    b[31] = 6;
    assert!(!same_address(&a, &b));
    b = a;
    b[0] = 0;
    assert!(!same_address(&a, &b));
}
