use anchor_lang::prelude::Pubkey;
use spl_token_2022::extension::ExtensionType;
use spl_token_2022::state::Mint;
use superteam_academy::address::Address;
use superteam_academy::config::{initialize, update_config, UpdateConfigParams};
use superteam_academy::errors::AcademyError;
use superteam_academy::keys::{config_address, learner_address, program_id};

fn program() -> Pubkey {
    Pubkey::new_from_array(program_id().bytes)
}

/// The configuration address as the runtime derives it.
fn config_pda() -> (Address, u8) {
    let (key, bump) = Pubkey::find_program_address(&[b"config"], &program());
    (Address::new(key.to_bytes()), bump)
}

fn keypair(seed: u8) -> Address {
    Address::new([seed; 32])
}

#[test]
fn initialize_creates_config_with_correct_fields() {
    let authority = keypair(7);
    let xp_mint = keypair(8);
    let max_daily = 5000u32;
    let max_achievement = 1000u32;
    let (_, bump) = config_pda();
    let config = initialize(authority, xp_mint, max_daily, max_achievement, bump);

    assert_eq!(config.authority, authority);
    assert_eq!(config.backend_signer, authority);
    assert_eq!(config.xp_mint, xp_mint);
    assert_eq!(config.max_daily_xp, max_daily);
    assert_eq!(config.max_achievement_xp, max_achievement);
    assert_eq!(config.reserved, [0u8; 32]);
}

#[test]
fn initialize_stores_correct_bump() {
    let authority = keypair(7);
    let (config_addr, bump) = config_address(&program_id()).expect("no config address");
    let config = initialize(authority, keypair(8), 5000, 1000, bump);

    let (expected_addr, expected_bump) = config_pda();

    assert_eq!(config_addr, expected_addr);
    assert_eq!(config.bump, expected_bump);
}

#[test]
fn initialize_config_pda_is_deterministic() {
    let (pda1, bump1) = config_address(&program_id()).unwrap();
    let (pda2, bump2) = config_address(&program_id()).unwrap();
    assert_eq!(pda1, pda2);
    assert_eq!(bump1, bump2);
}

#[test]
fn initialize_with_zero_max_daily_xp() {
    let config = initialize(keypair(7), keypair(8), 0, 0, 255);
    assert_eq!(config.max_daily_xp, 0);
    assert_eq!(config.max_achievement_xp, 0);
}

#[test]
fn program_id_matches_declared_address() {
    let declared: Pubkey = "3YchgRgR65gdRqgTZTM5qQXqtTZn5Kt2i6FPnZVu34Qb".parse().unwrap();
    assert_eq!(program(), declared);
}

#[test]
fn learner_address_matches_runtime_derivation() {
    let learner = keypair(9);
    let (addr, bump) = learner_address(&program_id(), &learner).unwrap();
    let (key, expected_bump) =
        Pubkey::find_program_address(&[b"learner", &learner.bytes], &program());
    assert_eq!(addr, Address::new(key.to_bytes()));
    assert_eq!(bump, expected_bump);
    assert_ne!(addr, learner);
}

#[test]
fn update_config_by_authority_changes_signer() {
    let authority = keypair(7);
    let mut config = initialize(authority, keypair(8), 5000, 1000, 255);
    let params = UpdateConfigParams {
        new_backend_signer: Some(keypair(9)),
        new_max_daily_xp: None,
        new_max_achievement_xp: Some(5),
    };
    assert_eq!(update_config(&mut config, &authority, params), Ok(()));
    assert_eq!(config.backend_signer, keypair(9));
    assert_eq!(config.authority, authority);
    assert_eq!(config.max_daily_xp, 5000);
    assert_eq!(config.max_achievement_xp, 5);
}

#[test]
fn update_config_by_stranger_fails() {
    let authority = keypair(7);
    let mut config = initialize(authority, keypair(8), 5000, 1000, 255);
    let params = UpdateConfigParams {
        new_backend_signer: Some(keypair(9)),
        new_max_daily_xp: Some(1),
        new_max_achievement_xp: None,
    };
    assert_eq!(
        update_config(&mut config, &keypair(3), params),
        Err(AcademyError::Unauthorized)
    );
    assert_eq!(config.backend_signer, authority);
    assert_eq!(config.max_daily_xp, 5000);
}

#[test]
fn reward_mint_space_matches_token_program() {
    let expected = ExtensionType::try_calculate_account_len::<Mint>(&[
        ExtensionType::NonTransferable,
        ExtensionType::PermanentDelegate,
        ExtensionType::MetadataPointer,
    ])
    .unwrap();
    let space = superteam_academy::reward_mint::reward_mint_space();
    assert_eq!(space, Some(expected));
    assert_eq!(space, Some(274));
}

#[test]
fn initialize_double_init_fails() {
    let mut ledger = superteam_academy::ledger::Ledger::new();
    let authority = keypair(7);
    ledger.initialize(initialize(authority, keypair(8), 5000, 1000, 255)).unwrap();
    let second = ledger.initialize(initialize(authority, keypair(9), 5000, 1000, 255));
    assert_eq!(second, Err(AcademyError::AlreadyInitialized));
    assert_eq!(ledger.config.unwrap().xp_mint, keypair(8));
}
