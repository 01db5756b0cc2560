use liquid_inheritance::cpi::Cpi;
use liquid_inheritance::errors::ProtocolError;
use liquid_inheritance::instructions::check_in::CheckIn;
use liquid_inheritance::instructions::trigger_inheritance::TriggerInheritance;
use liquid_inheritance::instructions::withdraw_sol::WithdrawSol;
use liquid_inheritance::state::{Config, Inheritance};

fn open_config() -> Config {
    Config {
        fees: 500,
        amount_locked: 10_000,
        burned: 0,
        mint: [1; 32],
        vault: [2; 32],
        locked: false,
        bump: 1,
        mint_bump: 2,
        vault_bump: 3,
    }
}

fn live_inheritance() -> Inheritance {
    Inheritance {
        maker: [3; 32],
        seed: 0,
        inheritor: [4; 32],
        inheritance_amount: 10_000,
        bounty_amount: 10,
        inactivity_time: 60,
        last_check_in: 100,
        shares: 10_000,
        bump: 9,
    }
}

#[test]
fn checked_in_inheritance_cannot_be_triggered_for_a_period() {
    let mut check_in = CheckIn { maker: [3; 32], inheritance: live_inheritance() };
    assert_eq!(check_in.check_in(150), Ok(()));
    for later in [150u64, 180, 209] {
        let mut trigger = TriggerInheritance {
            inheritor: [4; 32],
            maker: [3; 32],
            admin: [7; 32],
            upgrade_authority: Some([7; 32]),
            protocol_mint: [1; 32],
            token_program: [0x22; 32],
            token_2022_program_id: [0x22; 32],
            program_data: [0x11; 32],
            programdata_address: Some([0x11; 32]),
            config: open_config(),
            inheritance: check_in.inheritance,
            mint_supply: 10_000,
            maker_ata_amount: 10_000,
        };
        assert_eq!(trigger.trigger_inheritance(later), Err(ProtocolError::TimeNotElapsed));
    }
    let mut trigger = TriggerInheritance {
        inheritor: [4; 32],
        maker: [3; 32],
        admin: [7; 32],
        upgrade_authority: Some([7; 32]),
        protocol_mint: [1; 32],
            token_program: [0x22; 32],
            token_2022_program_id: [0x22; 32],
            program_data: [0x11; 32],
            programdata_address: Some([0x11; 32]),
        config: open_config(),
        inheritance: check_in.inheritance,
        mint_supply: 10_000,
        maker_ata_amount: 10_000,
    };
    assert!(trigger.trigger_inheritance(210).is_ok());
}

#[test]
fn either_check_in_or_trigger_passes_the_clock() {
    for now in [100u64, 159, 160, 500] {
        let mut check_in = CheckIn { maker: [3; 32], inheritance: live_inheritance() };
        let mut trigger = TriggerInheritance {
            inheritor: [4; 32],
            maker: [3; 32],
            admin: [7; 32],
            upgrade_authority: Some([7; 32]),
            protocol_mint: [1; 32],
            token_program: [0x22; 32],
            token_2022_program_id: [0x22; 32],
            program_data: [0x11; 32],
            programdata_address: Some([0x11; 32]),
            config: open_config(),
            inheritance: live_inheritance(),
            mint_supply: 10_000,
            maker_ata_amount: 10_000,
        };
        assert_ne!(check_in.check_in(now).is_ok(), trigger.trigger_inheritance(now).is_ok());
    }
}

#[test]
fn locked_protocol_refuses_users() {
    let mut config = open_config();
    config.locked = true;
    let mut trigger = TriggerInheritance { inheritor: [4; 32], maker: [3; 32], admin: [7; 32], upgrade_authority: Some([7; 32]), protocol_mint: [1; 32],
        token_program: [0x22; 32],
        token_2022_program_id: [0x22; 32],
        program_data: [0x11; 32],
        programdata_address: Some([0x11; 32]),
        config,
        inheritance: live_inheritance(), mint_supply: 1, maker_ata_amount: 1 };
    assert_eq!(trigger.trigger_inheritance(1_000), Err(ProtocolError::ProtocolLocked));
    let mut withdraw = WithdrawSol { protocol_mint: [1; 32], config, mint_supply: 1 };
    assert_eq!(withdraw.withraw_sol(1), Err(ProtocolError::ProtocolLocked));
}

#[test]
fn trigger_payouts_add_up_to_released_lamports() {
    let mut trigger = TriggerInheritance {
        inheritor: [4; 32],
        maker: [3; 32],
        admin: [7; 32],
        upgrade_authority: Some([7; 32]),
        protocol_mint: [1; 32],
            token_program: [0x22; 32],
            token_2022_program_id: [0x22; 32],
            program_data: [0x11; 32],
            programdata_address: Some([0x11; 32]),
        config: open_config(),
        inheritance: live_inheritance(),
        mint_supply: 30_000,
        maker_ata_amount: 10_000,
    };
    let cpis = trigger.trigger_inheritance(1_000).unwrap();
    // 10000 * 10000 / 30000 = 3333, fee 5% = 166
    let (to_inheritor, fee) = match (cpis[1], cpis[3]) {
        (Cpi::Transfer { lamports: a, .. }, Cpi::Transfer { lamports: b, .. }) => (a, b),
        _ => panic!("unexpected cpis"),
    };
    assert_eq!((to_inheritor, fee), (3_167, 166));
    assert_eq!(10_000 - trigger.config.amount_locked, to_inheritor + fee);
}

#[test]
fn deposits_never_dilute_holders() {
    for (assets, supply, deposit) in [(700u64, 300u64, 100u64), (3, 7, 1), (u64::MAX, 1, u64::MAX), (1, u64::MAX, 2)] {
        let minted = Inheritance::calculate_token_to_mint(deposit, assets, supply).unwrap() as u128;
        let (a, s, d) = (assets as u128, supply as u128, deposit as u128);
        assert!(minted * a <= d * s);
        assert!((a + d) * s >= a * (s + minted));
    }
}

#[test]
fn redemption_is_pro_rata_monotone_and_keeps_backing() {
    let (assets, supply) = (1_000u64, 300u64);
    let mut last = 0u64;
    for shares in [0u64, 1, 7, 100, 299, 300] {
        let r = Inheritance::calculate_lamports_to_return(shares, assets, supply).unwrap();
        assert!(r as u128 * supply as u128 <= shares as u128 * assets as u128);
        assert!(r >= last && r <= assets);
        last = r;
        assert!((assets - r) as u128 * supply as u128 >= assets as u128 * (supply - shares) as u128);
    }
}
