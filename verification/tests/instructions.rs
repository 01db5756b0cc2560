use liquid_inheritance::cpi::{Cpi, Party};
use liquid_inheritance::errors::ProtocolError;
use liquid_inheritance::instructions::change_inactivity_time::ChangeInactivityTime;
use liquid_inheritance::instructions::change_inheritor::ChangeInheritor;
use liquid_inheritance::instructions::check_in::CheckIn;
use liquid_inheritance::instructions::close_inheritance::CloseInheritance;
use liquid_inheritance::instructions::flip_protocol::FlipProtocol;
use liquid_inheritance::instructions::increase_inheritance::IncreaseInheritance;
use liquid_inheritance::instructions::increase_inheritance_bounty::IncreaseInheritanceBounty;
use liquid_inheritance::instructions::initialize_config::{InitializeAdmin, InitializeAdminBumps};
use liquid_inheritance::instructions::initialize_inheritance::{InitializeInheritance, InitializeInheritanceBumps};
use liquid_inheritance::instructions::reduce_inheritance::ReduceInheritance;
use liquid_inheritance::instructions::trigger_inheritance::TriggerInheritance;
use liquid_inheritance::instructions::update_config_burned::UpdateConfigBurned;
use liquid_inheritance::instructions::update_config_fees::UpdateConfigFees;
use liquid_inheritance::instructions::withdraw_sol::WithdrawSol;
use liquid_inheritance::state::{Config, Inheritance};

const MAKER: [u8; 32] = [3; 32];
const INHERITOR: [u8; 32] = [4; 32];
const MINT: [u8; 32] = [1; 32];
const ADMIN: [u8; 32] = [7; 32];
const STRANGER: [u8; 32] = [0xee; 32];
const PROGRAM_DATA: [u8; 32] = [0x11; 32];
const TOKEN_2022: [u8; 32] = [0x22; 32];

fn config(amount_locked: u64) -> Config {
    Config {
        fees: 100,
        amount_locked,
        burned: 0,
        mint: MINT,
        vault: [2; 32],
        locked: false,
        bump: 254,
        mint_bump: 253,
        vault_bump: 252,
    }
}

fn inheritance(shares: u64) -> Inheritance {
    Inheritance {
        maker: [3; 32],
        seed: 7,
        inheritor: [4; 32],
        inheritance_amount: 1_000,
        bounty_amount: 50,
        inactivity_time: 100,
        last_check_in: 1_000,
        shares,
        bump: 255,
    }
}

#[test]
fn initialize_config_starts_open_and_empty() {
    let mut ix = InitializeAdmin { admin: ADMIN, upgrade_authority: Some(ADMIN), program_data: PROGRAM_DATA, programdata_address: Some(PROGRAM_DATA), token_program: TOKEN_2022, token_2022_program_id: TOKEN_2022, protocol_mint: [9; 32], vault: [8; 32], config: config(77) };
    let bumps = InitializeAdminBumps { protocol_mint: 1, config: 2, vault: 3 };
    assert_eq!(ix.initialize_config(bumps, 250), Ok(()));
    assert_eq!(
        ix.config,
        Config {
            fees: 250,
            amount_locked: 0,
            burned: 0,
            mint: [9; 32],
            vault: [8; 32],
            locked: false,
            bump: 2,
            mint_bump: 1,
            vault_bump: 3,
        }
    );
}

#[test]
fn update_config_fees_sets_fee() {
    let mut ix = UpdateConfigFees { admin: ADMIN, upgrade_authority: Some(ADMIN), program_data: PROGRAM_DATA, programdata_address: Some(PROGRAM_DATA), config: config(0) };
    assert_eq!(ix.update_config_fees(42), Ok(()));
    assert_eq!(ix.config.fees, 42);
}

#[test]
fn flip_protocol_twice_restores() {
    let before = config(10);
    let mut ix = FlipProtocol { admin: ADMIN, upgrade_authority: Some(ADMIN), program_data: PROGRAM_DATA, programdata_address: Some(PROGRAM_DATA), config: before };
    assert_eq!(ix.flip_protocol(), Ok(()));
    assert!(ix.config.locked);
    assert_eq!(ix.flip_protocol(), Ok(()));
    assert_eq!(ix.config, before);
}

#[test]
fn update_config_burned_only_while_locked() {
    let mut ix = UpdateConfigBurned { admin: PROGRAM_DATA, program_data_address: Some(PROGRAM_DATA), config: config(10) };
    assert_eq!(ix.update_config_burned(5), Err(ProtocolError::ProtocolUnlocked));
    assert_eq!(ix.config, config(10));
    ix.config.locked = true;
    assert_eq!(ix.update_config_burned(5), Ok(()));
    assert_eq!(ix.update_config_burned(6), Ok(()));
    assert_eq!(ix.config.burned, 11);
}

#[test]
fn initialize_inheritance_into_empty_vault() {
    let mut ix = InitializeInheritance { maker: MAKER, protocol_mint: MINT, token_program: TOKEN_2022, token_2022_program_id: TOKEN_2022, config: config(0), mint_supply: 0, inheritance: inheritance(0) };
    let cpis = ix
        .initialize_inheritance(InitializeInheritanceBumps { inheritance: 200 }, 11, [4; 32], 1_000, 50, 3_600, 5_000)
        .unwrap();
    assert_eq!(ix.config.amount_locked, 1_000);
    assert_eq!(
        ix.inheritance,
        Inheritance {
            maker: [3; 32],
            seed: 11,
            inheritor: [4; 32],
            inheritance_amount: 1_000,
            bounty_amount: 50,
            inactivity_time: 3_600,
            last_check_in: 5_000,
            shares: 1_000,
            bump: 200,
        }
    );
    assert_eq!(
        cpis,
        vec![
            Cpi::Transfer { from: Party::Maker, to: Party::Vault, lamports: 1_000 },
            Cpi::Transfer { from: Party::Maker, to: Party::InheritanceAccount, lamports: 50 },
            Cpi::MintTo { to: Party::MakerTokenAccount, amount: 1_000 },
            Cpi::Approve { account: Party::MakerTokenAccount, delegate: Party::Config, authority: Party::Maker, amount: 1_000 },
        ]
    );
}

#[test]
fn initialize_inheritance_prices_against_existing_vault() {
    let mut ix = InitializeInheritance { maker: MAKER, protocol_mint: MINT, token_program: TOKEN_2022, token_2022_program_id: TOKEN_2022, config: config(2_000), mint_supply: 1_000, inheritance: inheritance(0) };
    let cpis = ix
        .initialize_inheritance(InitializeInheritanceBumps { inheritance: 1 }, 1, [5; 32], 500, 0, 10, 1)
        .unwrap();
    assert_eq!(ix.inheritance.shares, 250);
    assert_eq!(ix.config.amount_locked, 2_500);
    assert_eq!(cpis[2], Cpi::MintTo { to: Party::MakerTokenAccount, amount: 250 });
}

#[test]
fn initialize_inheritance_refused_while_locked() {
    let mut locked = config(0);
    locked.locked = true;
    let mut ix = InitializeInheritance { maker: MAKER, protocol_mint: MINT, token_program: TOKEN_2022, token_2022_program_id: TOKEN_2022, config: locked, mint_supply: 0, inheritance: inheritance(0) };
    let before = ix;
    let r = ix.initialize_inheritance(InitializeInheritanceBumps { inheritance: 1 }, 1, [5; 32], 500, 0, 10, 1);
    assert_eq!(r, Err(ProtocolError::ProtocolLocked));
    assert_eq!(ix, before);
}

#[test]
fn check_in_restarts_period() {
    let mut ix = CheckIn { maker: MAKER, inheritance: inheritance(10) };
    assert_eq!(ix.check_in(1_099), Ok(()));
    assert_eq!(ix.inheritance.last_check_in, 1_099);
    assert_eq!(ix.check_in(1_150), Ok(()));
    assert_eq!(ix.inheritance.last_check_in, 1_150);
}

#[test]
fn check_in_after_period_is_time_elapsed() {
    let mut ix = CheckIn { maker: MAKER, inheritance: inheritance(10) };
    assert_eq!(ix.check_in(1_100), Err(ProtocolError::TimeElapsed));
    assert_eq!(ix.inheritance, inheritance(10));
}

#[test]
fn check_in_before_last_check_in_is_invalid_timestamp() {
    let mut ix = CheckIn { maker: MAKER, inheritance: inheritance(10) };
    assert_eq!(ix.check_in(999), Err(ProtocolError::InvalidTimestamp));
    assert_eq!(ix.inheritance, inheritance(10));
}

#[test]
fn change_inheritor_names_new_beneficiary() {
    let mut ix = ChangeInheritor { maker: MAKER, inheritance: inheritance(10), config: config(0) };
    assert_eq!(ix.change_inheritor([6; 32], 1_050), Ok(()));
    assert_eq!(ix.inheritance.inheritor, [6; 32]);
    assert_eq!(ix.inheritance.last_check_in, 1_050);
}

#[test]
fn change_inheritor_refusals() {
    let mut ix = ChangeInheritor { maker: MAKER, inheritance: inheritance(10), config: config(0) };
    assert_eq!(ix.change_inheritor([6; 32], 1_100), Err(ProtocolError::TimeElapsed));
    ix.config.locked = true;
    assert_eq!(ix.change_inheritor([6; 32], 1_050), Err(ProtocolError::ProtocolLocked));
    assert_eq!(ix.inheritance, inheritance(10));
}

#[test]
fn change_inactivity_time_sets_period() {
    let mut ix = ChangeInactivityTime { maker: MAKER, inheritance: inheritance(10), config: config(0) };
    assert_eq!(ix.change_inactivity_time(500, 1_020), Ok(()));
    assert_eq!(ix.inheritance.inactivity_time, 500);
    assert_eq!(ix.inheritance.last_check_in, 1_020);
    assert_eq!(ix.change_inactivity_time(500, 1_000), Err(ProtocolError::InvalidTimestamp));
}

#[test]
fn increase_inheritance_mints_pro_rata() {
    let mut ix = IncreaseInheritance { maker: MAKER, protocol_mint: MINT, token_program: TOKEN_2022, token_2022_program_id: TOKEN_2022, config: config(2_000), inheritance: inheritance(400), mint_supply: 1_000 };
    let cpis = ix.increase_inheritance(600, 1_010).unwrap();
    assert_eq!(
        cpis,
        vec![
            Cpi::Transfer { from: Party::Maker, to: Party::Vault, lamports: 600 },
            Cpi::MintTo { to: Party::MakerTokenAccount, amount: 300 },
        ]
    );
    assert_eq!(ix.config.amount_locked, 2_600);
    assert_eq!(ix.inheritance.inheritance_amount, 1_600);
    assert_eq!(ix.inheritance.shares, 700);
    assert_eq!(ix.inheritance.last_check_in, 1_010);
    assert_eq!(ix.mint_supply, 1_000);
}

#[test]
fn increase_inheritance_refused_after_period() {
    let mut ix = IncreaseInheritance { maker: MAKER, protocol_mint: MINT, token_program: TOKEN_2022, token_2022_program_id: TOKEN_2022, config: config(2_000), inheritance: inheritance(400), mint_supply: 1_000 };
    let before = ix;
    assert_eq!(ix.increase_inheritance(600, 2_000), Err(ProtocolError::TimeElapsed));
    assert_eq!(ix, before);
}

#[test]
fn increase_inheritance_bounty_adds_to_bounty() {
    let mut ix = IncreaseInheritanceBounty { maker: MAKER, inheritance: inheritance(10), config: config(0) };
    let cpis = ix.increase_inheritance_bounty(25, 1_001).unwrap();
    assert_eq!(cpis, vec![Cpi::Transfer { from: Party::Maker, to: Party::InheritanceVault, lamports: 25 }]);
    assert_eq!(ix.inheritance.bounty_amount, 75);
    assert_eq!(ix.inheritance.last_check_in, 1_001);
    assert_eq!(ix.increase_inheritance_bounty(25, 999), Err(ProtocolError::InvalidTimestamp));
    assert_eq!(ix.inheritance.bounty_amount, 75);
}

#[test]
fn reduce_inheritance_burns_matching_shares() {
    let mut ix = ReduceInheritance { maker: MAKER, protocol_mint: MINT, config: config(4_000), inheritance: inheritance(400), mint_supply: 1_000, maker_ata_amount: 400 };
    let cpis = ix.reduce_inheritance(800, 1_010).unwrap();
    assert_eq!(
        cpis,
        vec![
            Cpi::Burn { from: Party::MakerTokenAccount, authority: Party::Config, amount: 200 },
            Cpi::Transfer { from: Party::Vault, to: Party::Maker, lamports: 800 },
        ]
    );
    assert_eq!(ix.config.amount_locked, 3_200);
    assert_eq!(ix.inheritance.inheritance_amount, 200);
    assert_eq!(ix.inheritance.shares, 400);
    assert_eq!(ix.inheritance.last_check_in, 1_000);
}

#[test]
fn reduce_inheritance_refusals() {
    let base = ReduceInheritance { maker: MAKER, protocol_mint: MINT, config: config(4_000), inheritance: inheritance(400), mint_supply: 1_000, maker_ata_amount: 400 };
    // more shares than the inheritance holds
    let mut ix = base;
    assert_eq!(ix.reduce_inheritance(2_000, 1_010), Err(ProtocolError::InvalidTokenAmount));
    // exactly all of its shares
    let mut ix = base;
    assert_eq!(ix.reduce_inheritance(1_600, 1_010), Err(ProtocolError::InvalidInstruction));
    // maker holds no shares
    let mut ix = base;
    ix.maker_ata_amount = 0;
    assert_eq!(ix.reduce_inheritance(800, 1_010), Err(ProtocolError::NoSharesAvailable));
    // maker holds too few shares
    let mut ix = base;
    ix.maker_ata_amount = 100;
    assert_eq!(ix.reduce_inheritance(800, 1_010), Err(ProtocolError::InvalidTokenAmount));
    assert_eq!(ix.config, base.config);
    // empty vault
    let mut ix = base;
    ix.config.amount_locked = 0;
    assert_eq!(ix.reduce_inheritance(0, 1_010), Err(ProtocolError::MathOverflow));
    // after the period
    let mut ix = base;
    assert_eq!(ix.reduce_inheritance(800, 1_100), Err(ProtocolError::TimeElapsed));
    assert_eq!(ix, base);
}

#[test]
fn close_inheritance_returns_funds_and_bounty() {
    let mut c = config(4_000);
    c.burned = 2_000;
    let mut ix = CloseInheritance { maker: MAKER, protocol_mint: MINT, config: c, inheritance: inheritance(400), maker_ata_amount: 300 };
    let cpis = ix.close_inheritance(1_050).unwrap();
    // 300 * 4000 / (4000 - 2000) = 600
    assert_eq!(
        cpis,
        vec![
            Cpi::Burn { from: Party::MakerTokenAccount, authority: Party::Config, amount: 300 },
            Cpi::Transfer { from: Party::Vault, to: Party::Maker, lamports: 600 },
            Cpi::Transfer { from: Party::InheritanceAccount, to: Party::Maker, lamports: 50 },
        ]
    );
    assert_eq!(ix.config.amount_locked, 3_400);
    assert_eq!(ix.inheritance, inheritance(400));
}

#[test]
fn close_inheritance_refusals() {
    let mut ix = CloseInheritance { maker: MAKER, protocol_mint: MINT, config: config(4_000), inheritance: inheritance(400), maker_ata_amount: 0 };
    assert_eq!(ix.close_inheritance(1_050), Err(ProtocolError::NoSharesAvailable));
    let mut ix = CloseInheritance { maker: MAKER, protocol_mint: MINT, config: config(4_000), inheritance: inheritance(400), maker_ata_amount: 10 };
    ix.config.burned = 4_000;
    assert_eq!(ix.close_inheritance(1_050), Err(ProtocolError::MathOverflow));
    assert_eq!(ix.close_inheritance(1_200), Err(ProtocolError::TimeElapsed));
    ix.config.locked = true;
    assert_eq!(ix.close_inheritance(1_050), Err(ProtocolError::ProtocolLocked));
}

#[test]
fn trigger_inheritance_pays_inheritor_admin_and_keeper() {
    let mut ix = TriggerInheritance { inheritor: INHERITOR, maker: MAKER, admin: ADMIN, upgrade_authority: Some(ADMIN), protocol_mint: MINT, token_program: TOKEN_2022, token_2022_program_id: TOKEN_2022, program_data: PROGRAM_DATA, programdata_address: Some(PROGRAM_DATA), config: config(4_000), inheritance: inheritance(400), mint_supply: 1_000, maker_ata_amount: 500 };
    let cpis = ix.trigger_inheritance(1_100).unwrap();
    // 400 * 4000 / 1000 = 1600, fee 1% = 16
    assert_eq!(
        cpis,
        vec![
            Cpi::Burn { from: Party::MakerTokenAccount, authority: Party::Config, amount: 400 },
            Cpi::Transfer { from: Party::Vault, to: Party::Inheritor, lamports: 1_584 },
            Cpi::Transfer { from: Party::InheritanceVault, to: Party::Keeper, lamports: 50 },
            Cpi::Transfer { from: Party::Vault, to: Party::Admin, lamports: 16 },
            Cpi::SweepLamports { from: Party::InheritanceVault, to: Party::Keeper },
        ]
    );
    assert_eq!(ix.config.amount_locked, 2_400);
}

#[test]
fn trigger_inheritance_burns_only_what_maker_holds() {
    let mut ix = TriggerInheritance { inheritor: INHERITOR, maker: MAKER, admin: ADMIN, upgrade_authority: Some(ADMIN), protocol_mint: MINT, token_program: TOKEN_2022, token_2022_program_id: TOKEN_2022, program_data: PROGRAM_DATA, programdata_address: Some(PROGRAM_DATA), config: config(4_000), inheritance: inheritance(400), mint_supply: 1_000, maker_ata_amount: 100 };
    let cpis = ix.trigger_inheritance(5_000).unwrap();
    assert_eq!(cpis[0], Cpi::Burn { from: Party::MakerTokenAccount, authority: Party::Config, amount: 100 });
    assert_eq!(cpis[1], Cpi::Transfer { from: Party::Vault, to: Party::Inheritor, lamports: 396 });
}

#[test]
fn trigger_inheritance_refusals() {
    let base = TriggerInheritance { inheritor: INHERITOR, maker: MAKER, admin: ADMIN, upgrade_authority: Some(ADMIN), protocol_mint: MINT, token_program: TOKEN_2022, token_2022_program_id: TOKEN_2022, program_data: PROGRAM_DATA, programdata_address: Some(PROGRAM_DATA), config: config(4_000), inheritance: inheritance(400), mint_supply: 1_000, maker_ata_amount: 500 };
    let mut ix = base;
    assert_eq!(ix.trigger_inheritance(1_099), Err(ProtocolError::TimeNotElapsed));
    assert_eq!(ix.trigger_inheritance(999), Err(ProtocolError::InvalidTimestamp));
    ix.mint_supply = 0;
    assert_eq!(ix.trigger_inheritance(1_100), Err(ProtocolError::MathOverflow));
    let mut ix = base;
    ix.config.fees = 20_000;
    assert_eq!(ix.trigger_inheritance(1_100), Err(ProtocolError::MathOverflow));
    let mut ix = base;
    ix.config.locked = true;
    assert_eq!(ix.trigger_inheritance(1_100), Err(ProtocolError::ProtocolLocked));
    assert_eq!(ix, { let mut b = base; b.config.locked = true; b });
}

#[test]
fn withdraw_sol_redeems_tokens() {
    let mut ix = WithdrawSol { protocol_mint: MINT, config: config(3_000), mint_supply: 1_000 };
    let cpis = ix.withraw_sol(100).unwrap();
    assert_eq!(
        cpis,
        vec![
            Cpi::Transfer { from: Party::Vault, to: Party::Withdrawer, lamports: 300 },
            Cpi::Burn { from: Party::WithdrawerTokenAccount, authority: Party::Withdrawer, amount: 100 },
        ]
    );
    assert_eq!(ix.config.amount_locked, 2_700);
}

#[test]
fn withdraw_sol_refusals() {
    let mut ix = WithdrawSol { protocol_mint: MINT, config: config(3_000), mint_supply: 0 };
    assert_eq!(ix.withraw_sol(100), Err(ProtocolError::MathOverflow));
    let mut ix = WithdrawSol { protocol_mint: MINT, config: config(3_000), mint_supply: 1_000 };
    ix.config.locked = true;
    assert_eq!(ix.withraw_sol(100), Err(ProtocolError::ProtocolLocked));
    assert_eq!(ix.config.amount_locked, 3_000);
}

#[test]
fn admin_instructions_need_the_upgrade_authority() {
    let mut ix = FlipProtocol { admin: STRANGER, upgrade_authority: Some(ADMIN), program_data: PROGRAM_DATA, programdata_address: Some(PROGRAM_DATA), config: config(0) };
    assert_eq!(ix.flip_protocol(), Err(ProtocolError::InvalidAdmin));
    assert!(!ix.config.locked);
    let mut ix = UpdateConfigFees { admin: ADMIN, upgrade_authority: None, program_data: PROGRAM_DATA, programdata_address: Some(PROGRAM_DATA), config: config(0) };
    assert_eq!(ix.update_config_fees(1), Err(ProtocolError::InvalidAdmin));
    assert_eq!(ix.config.fees, 100);
    let mut locked = config(0);
    locked.locked = true;
    let mut ix = UpdateConfigBurned { admin: ADMIN, program_data_address: Some(PROGRAM_DATA), config: locked };
    assert_eq!(ix.update_config_burned(1), Err(ProtocolError::InvalidAdmin));
    let mut ix = InitializeAdmin { admin: STRANGER, upgrade_authority: Some(ADMIN), program_data: PROGRAM_DATA, programdata_address: Some(PROGRAM_DATA), token_program: TOKEN_2022, token_2022_program_id: TOKEN_2022, protocol_mint: [9; 32], vault: [8; 32], config: config(77) };
    let bumps = InitializeAdminBumps { protocol_mint: 1, config: 2, vault: 3 };
    assert_eq!(ix.initialize_config(bumps, 250), Err(ProtocolError::InvalidAdmin));
    assert_eq!(ix.config, config(77));
}

#[test]
fn maker_instructions_refuse_other_signers() {
    let mut ix = CheckIn { maker: STRANGER, inheritance: inheritance(10) };
    assert_eq!(ix.check_in(1_050), Err(ProtocolError::InvalidMaker));
    let mut ix = ChangeInheritor { maker: STRANGER, inheritance: inheritance(10), config: config(0) };
    assert_eq!(ix.change_inheritor(STRANGER, 1_050), Err(ProtocolError::InvalidMaker));
    assert_eq!(ix.inheritance.inheritor, INHERITOR);
    let mut ix = IncreaseInheritanceBounty { maker: STRANGER, inheritance: inheritance(10), config: config(0) };
    assert_eq!(ix.increase_inheritance_bounty(1, 1_050), Err(ProtocolError::InvalidMaker));
    let mut ix = CloseInheritance { maker: STRANGER, protocol_mint: MINT, config: config(4_000), inheritance: inheritance(400), maker_ata_amount: 10 };
    assert_eq!(ix.close_inheritance(1_050), Err(ProtocolError::InvalidMaker));
}

#[test]
fn wrong_mint_is_refused() {
    let mut ix = IncreaseInheritance { maker: MAKER, protocol_mint: STRANGER, token_program: TOKEN_2022, token_2022_program_id: TOKEN_2022, config: config(2_000), inheritance: inheritance(400), mint_supply: 1_000 };
    assert_eq!(ix.increase_inheritance(600, 1_010), Err(ProtocolError::InvalidMintAccount));
    let mut ix = WithdrawSol { protocol_mint: STRANGER, config: config(3_000), mint_supply: 1_000 };
    assert_eq!(ix.withraw_sol(100), Err(ProtocolError::InvalidMintAccount));
    let mut ix = InitializeInheritance { maker: MAKER, protocol_mint: STRANGER, token_program: TOKEN_2022, token_2022_program_id: TOKEN_2022, config: config(0), mint_supply: 0, inheritance: inheritance(0) };
    let r = ix.initialize_inheritance(InitializeInheritanceBumps { inheritance: 1 }, 1, INHERITOR, 500, 0, 10, 1);
    assert_eq!(r, Err(ProtocolError::InvalidMintAccount));
}

#[test]
fn trigger_checks_accounts_in_order() {
    let base = TriggerInheritance { inheritor: INHERITOR, maker: MAKER, admin: ADMIN, upgrade_authority: Some(ADMIN), protocol_mint: MINT, token_program: TOKEN_2022, token_2022_program_id: TOKEN_2022, program_data: PROGRAM_DATA, programdata_address: Some(PROGRAM_DATA), config: config(4_000), inheritance: inheritance(400), mint_supply: 1_000, maker_ata_amount: 500 };
    let mut ix = base;
    ix.inheritor = STRANGER;
    ix.maker = STRANGER;
    assert_eq!(ix.trigger_inheritance(1_100), Err(ProtocolError::InvalidInheritor));
    let mut ix = base;
    ix.maker = STRANGER;
    assert_eq!(ix.trigger_inheritance(1_100), Err(ProtocolError::InvalidMaker));
    let mut ix = base;
    ix.admin = STRANGER;
    assert_eq!(ix.trigger_inheritance(1_100), Err(ProtocolError::InvalidAdmin));
    let mut ix = base;
    ix.protocol_mint = STRANGER;
    ix.config.locked = true;
    assert_eq!(ix.trigger_inheritance(1_100), Err(ProtocolError::InvalidMintAccount));
}

#[test]
fn update_config_burned_checks_signer_against_program_data_address() {
    let mut locked = config(0);
    locked.locked = true;
    // The upgrade authority itself is refused: the signer must be the data account's address.
    let mut ix = UpdateConfigBurned { admin: ADMIN, program_data_address: Some(PROGRAM_DATA), config: locked };
    assert_eq!(ix.update_config_burned(1), Err(ProtocolError::InvalidAdmin));
    let mut ix = UpdateConfigBurned { admin: ADMIN, program_data_address: None, config: locked };
    assert_eq!(ix.update_config_burned(1), Err(ProtocolError::InvalidAdmin));
    let mut ix = UpdateConfigBurned { admin: PROGRAM_DATA, program_data_address: Some(PROGRAM_DATA), config: locked };
    assert_eq!(ix.update_config_burned(1), Ok(()));
    assert_eq!(ix.config.burned, 1);
}

#[test]
fn overflow_predicates_match_the_instructions() {
    let mut near_full = config(u64::MAX - 5);
    near_full.burned = 0;
    let ix = IncreaseInheritance { maker: MAKER, protocol_mint: MINT, token_program: TOKEN_2022, token_2022_program_id: TOKEN_2022, config: near_full, inheritance: inheritance(400), mint_supply: 0 };
    assert!(ix.fits(5, 1_010));
    assert!(!ix.fits(6, 1_010));
    // refused anyway after the period, so nothing can overflow
    assert!(ix.fits(6, 1_100));

    let mut locked = config(0);
    locked.locked = true;
    locked.burned = u64::MAX;
    let ix = UpdateConfigBurned { admin: PROGRAM_DATA, program_data_address: Some(PROGRAM_DATA), config: locked };
    assert!(ix.fits(0));
    assert!(!ix.fits(1));

    // trigger: the fee check refuses before the locked total could underflow
    let mut c = config(100);
    c.fees = 20_000;
    let ix = TriggerInheritance { inheritor: INHERITOR, maker: MAKER, admin: ADMIN, upgrade_authority: Some(ADMIN), protocol_mint: MINT, token_program: TOKEN_2022, token_2022_program_id: TOKEN_2022, program_data: PROGRAM_DATA, programdata_address: Some(PROGRAM_DATA), config: c, inheritance: inheritance(400), mint_supply: 1, maker_ata_amount: 400 };
    assert!(ix.fits(1_100));
    c.fees = 0;
    let ix = TriggerInheritance { config: c, ..ix };
    assert!(!ix.fits(1_100));

    let ix = WithdrawSol { protocol_mint: MINT, config: config(100), mint_supply: 1 };
    assert!(ix.fits(1));
    assert!(!ix.fits(2));

    let ix = ReduceInheritance { maker: MAKER, protocol_mint: MINT, config: config(4_000), inheritance: inheritance(400), mint_supply: 1_000, maker_ata_amount: 400 };
    assert!(ix.fits(800, 1_010));

    let mut c = config(100);
    c.burned = 200;
    let ix = CloseInheritance { maker: MAKER, protocol_mint: MINT, config: c, inheritance: inheritance(400), maker_ata_amount: 10 };
    assert!(!ix.fits(1_050));
    assert!(ix.fits(1_200));

    let ix = IncreaseInheritanceBounty { maker: MAKER, inheritance: Inheritance { bounty_amount: u64::MAX, ..inheritance(1) }, config: config(0) };
    assert!(ix.fits(0, 1_010));
    assert!(!ix.fits(1, 1_010));

    let ix = InitializeInheritance { maker: MAKER, protocol_mint: MINT, token_program: TOKEN_2022, token_2022_program_id: TOKEN_2022, config: config(u64::MAX), mint_supply: 0, inheritance: inheritance(0) };
    assert!(ix.fits(0));
    assert!(!ix.fits(1));
}

#[test]
fn program_data_and_token_program_are_checked() {
    let bumps = InitializeAdminBumps { protocol_mint: 1, config: 2, vault: 3 };
    let good = InitializeAdmin { admin: ADMIN, upgrade_authority: Some(ADMIN), program_data: PROGRAM_DATA, programdata_address: Some(PROGRAM_DATA), token_program: TOKEN_2022, token_2022_program_id: TOKEN_2022, protocol_mint: [9; 32], vault: [8; 32], config: config(77) };
    let mut ix = good;
    ix.program_data = STRANGER;
    ix.token_program = STRANGER;
    assert_eq!(ix.initialize_config(bumps, 1), Err(ProtocolError::InvalidProgram));
    let mut ix = good;
    ix.programdata_address = None;
    assert_eq!(ix.initialize_config(bumps, 1), Err(ProtocolError::InvalidProgram));
    let mut ix = good;
    ix.token_program = STRANGER;
    assert_eq!(ix.initialize_config(bumps, 1), Err(ProtocolError::InvalidTokenProgram));
    assert_eq!(ix.config, config(77));

    let mut ix = FlipProtocol { admin: ADMIN, upgrade_authority: Some(ADMIN), program_data: STRANGER, programdata_address: Some(PROGRAM_DATA), config: config(0) };
    assert_eq!(ix.flip_protocol(), Err(ProtocolError::InvalidProgram));
    assert!(!ix.config.locked);

    let mut ix = InitializeInheritance { maker: MAKER, protocol_mint: MINT, token_program: STRANGER, token_2022_program_id: TOKEN_2022, config: config(0), mint_supply: 0, inheritance: inheritance(0) };
    let r = ix.initialize_inheritance(InitializeInheritanceBumps { inheritance: 1 }, 1, INHERITOR, 500, 0, 10, 1);
    assert_eq!(r, Err(ProtocolError::InvalidTokenProgram));
    ix.config.locked = true;
    let r = ix.initialize_inheritance(InitializeInheritanceBumps { inheritance: 1 }, 1, INHERITOR, 500, 0, 10, 1);
    assert_eq!(r, Err(ProtocolError::ProtocolLocked));

    let mut ix = IncreaseInheritance { maker: MAKER, protocol_mint: MINT, token_program: STRANGER, token_2022_program_id: TOKEN_2022, config: config(2_000), inheritance: inheritance(400), mint_supply: 1_000 };
    assert_eq!(ix.increase_inheritance(600, 5_000), Err(ProtocolError::InvalidTokenProgram));

    let base = TriggerInheritance { inheritor: INHERITOR, maker: MAKER, admin: ADMIN, upgrade_authority: Some(ADMIN), protocol_mint: MINT, token_program: TOKEN_2022, token_2022_program_id: TOKEN_2022, program_data: PROGRAM_DATA, programdata_address: Some(PROGRAM_DATA), config: config(4_000), inheritance: inheritance(400), mint_supply: 1_000, maker_ata_amount: 500 };
    let mut ix = base;
    ix.token_program = STRANGER;
    ix.program_data = STRANGER;
    assert_eq!(ix.trigger_inheritance(1_100), Err(ProtocolError::InvalidTokenProgram));
    let mut ix = base;
    ix.program_data = STRANGER;
    assert_eq!(ix.trigger_inheritance(1_100), Err(ProtocolError::InvalidProgram));
    let mut ix = base;
    ix.program_data = STRANGER;
    ix.config.locked = true;
    assert_eq!(ix.trigger_inheritance(1_100), Err(ProtocolError::ProtocolLocked));
}
