use metatools_vault::config::{process_initialize_config, process_update_config};
use metatools_vault::error::{MetatoolsError, ProcessError};
use metatools_vault::event::Transfer;
use metatools_vault::instruction::{
    ClosePosition, CreateVault, InitializeConfig, OpenPosition, UpdateConfig, UpdatePositionTVL,
};
use metatools_vault::position::{
    process_close_position, process_open_position, process_update_position_tvl,
};
use metatools_vault::pubkey::Pubkey;
use metatools_vault::state::{
    GlobalConfig, Position, PositionStatus, Record, Signer, VaultMetadata, VaultStatus,
};
use metatools_vault::vault::{process_close_vault, process_create_vault};

fn key(n: u8) -> Pubkey {
    Pubkey { bytes: [n; 32] }
}

fn signer(n: u8) -> Signer {
    Signer { key: key(n), is_signer: true }
}

const ADMIN: u8 = 1;
const TREASURY: u8 = 2;
const BUYBACK: u8 = 3;
const SESSION: u8 = 4;
const MAIN: u8 = 5;
const REFERRER: u8 = 6;

fn default_init() -> InitializeConfig {
    InitializeConfig {
        treasury: key(TREASURY),
        buyback_wallet: key(BUYBACK),
        fee_bps: GlobalConfig::DEFAULT_FEE_BPS,
        referral_pct: GlobalConfig::DEFAULT_REFERRAL_PCT,
        buyback_pct: GlobalConfig::DEFAULT_BUYBACK_PCT,
        treasury_pct: GlobalConfig::DEFAULT_TREASURY_PCT,
    }
}

fn empty_config_slot() -> Record<GlobalConfig> {
    Record { key: GlobalConfig::pda().unwrap().0, data: None }
}

fn config_with_defaults() -> Record<GlobalConfig> {
    let mut slot = empty_config_slot();
    process_initialize_config(&signer(ADMIN), &mut slot, &default_init()).unwrap();
    slot
}

fn vault_with_referrer(referrer: Pubkey) -> Record<VaultMetadata> {
    let mut slot = Record { key: VaultMetadata::pda(&key(SESSION)).unwrap().0, data: None };
    process_create_vault(&signer(SESSION), &signer(MAIN), &mut slot, &CreateVault { referrer }, 100)
        .unwrap();
    slot
}

fn position_slot(id: u64) -> Record<Position> {
    Record { key: Position::pda(&key(SESSION), id).unwrap().0, data: None }
}

fn open_args(initial_tvl: u64) -> OpenPosition {
    OpenPosition {
        pool: key(10),
        base_mint: key(11),
        quote_mint: key(12),
        initial_tvl,
        protocol: Position::PROTOCOL_DLMM,
        strategy: Position::STRATEGY_AUTO_COMPOUND,
    }
}

fn vault_err(e: MetatoolsError) -> ProcessError {
    ProcessError::Vault(e)
}

#[test]
fn initialize_config_writes_settings_unpaused() {
    let slot = config_with_defaults();
    let c = slot.data.unwrap();
    assert_eq!(c.admin, key(ADMIN));
    assert_eq!(c.treasury, key(TREASURY));
    assert_eq!(c.buyback_wallet, key(BUYBACK));
    assert_eq!(c.fee_bps, 70);
    assert_eq!((c.referral_percentage, c.buyback_percentage, c.treasury_percentage), (10, 45, 45));
    assert!(!c.paused);
}

#[test]
fn initialize_config_rejects_bad_percentages() {
    let mut slot = empty_config_slot();
    let mut args = default_init();
    args.treasury_pct = 46;
    let r = process_initialize_config(&signer(ADMIN), &mut slot, &args);
    assert_eq!(r, Err(vault_err(MetatoolsError::InvalidFeePercentages)));
    assert!(slot.data.is_none());
}

#[test]
fn initialize_config_rejects_wrong_address() {
    let mut slot = Record { key: key(9), data: None };
    let r = process_initialize_config(&signer(ADMIN), &mut slot, &default_init());
    assert_eq!(r, Err(vault_err(MetatoolsError::InvalidPDA)));
    assert!(slot.data.is_none());
}

#[test]
fn initialize_config_only_once() {
    let mut slot = config_with_defaults();
    let r = process_initialize_config(&signer(7), &mut slot, &default_init());
    assert_eq!(r, Err(ProcessError::AccountAlreadyInitialized));
    assert_eq!(slot.data.unwrap().admin, key(ADMIN));
}

#[test]
fn initialize_config_needs_signature() {
    let mut slot = empty_config_slot();
    let admin = Signer { key: key(ADMIN), is_signer: false };
    let r = process_initialize_config(&admin, &mut slot, &default_init());
    assert_eq!(r, Err(ProcessError::MissingRequiredSignature));
}

fn update_args(referral: u8, buyback: u8, treasury: u8, paused: u8) -> UpdateConfig {
    UpdateConfig {
        new_treasury: key(20),
        new_buyback_wallet: key(21),
        new_fee_bps: 100,
        new_referral_pct: referral,
        new_buyback_pct: buyback,
        new_treasury_pct: treasury,
        paused,
    }
}

#[test]
fn update_config_by_admin_overwrites_all() {
    let mut slot = config_with_defaults();
    process_update_config(&signer(ADMIN), &mut slot, &update_args(0, 50, 50, 1)).unwrap();
    let c = slot.data.unwrap();
    assert_eq!(c.admin, key(ADMIN));
    assert_eq!(c.treasury, key(20));
    assert_eq!(c.buyback_wallet, key(21));
    assert_eq!(c.fee_bps, 100);
    assert_eq!((c.referral_percentage, c.buyback_percentage, c.treasury_percentage), (0, 50, 50));
    assert!(c.paused);
}

#[test]
fn update_config_by_other_is_unauthorized() {
    let mut slot = config_with_defaults();
    let r = process_update_config(&signer(7), &mut slot, &update_args(0, 50, 50, 0));
    assert_eq!(r, Err(vault_err(MetatoolsError::Unauthorized)));
    assert_eq!(slot.data.unwrap().treasury, key(TREASURY));
}

#[test]
fn update_config_bad_sum_leaves_config_unchanged() {
    let mut slot = config_with_defaults();
    let r = process_update_config(&signer(ADMIN), &mut slot, &update_args(50, 50, 50, 0));
    assert_eq!(r, Err(vault_err(MetatoolsError::InvalidFeePercentages)));
    let c = slot.data.unwrap();
    assert_eq!(c.fee_bps, 70);
    assert_eq!(c.treasury, key(TREASURY));
    assert_eq!((c.referral_percentage, c.buyback_percentage, c.treasury_percentage), (10, 45, 45));
}

#[test]
fn update_config_before_initialization() {
    let mut slot = empty_config_slot();
    let r = process_update_config(&signer(ADMIN), &mut slot, &update_args(10, 45, 45, 0));
    assert_eq!(r, Err(ProcessError::UninitializedAccount));
}

#[test]
fn create_vault_starts_empty_and_active() {
    let slot = vault_with_referrer(key(REFERRER));
    let v = slot.data.unwrap();
    assert_eq!(v.session_wallet, key(SESSION));
    assert_eq!(v.main_wallet, key(MAIN));
    assert_eq!(v.referrer, key(REFERRER));
    assert_eq!(v.total_value_locked, 0);
    assert_eq!(v.total_deposits, 0);
    assert_eq!(v.total_withdrawals, 0);
    assert_eq!(v.total_fees_paid, 0);
    assert_eq!(v.next_position_id, 0);
    assert_eq!(v.active_positions, 0);
    assert_eq!(v.status, VaultStatus::Active);
    assert_eq!((v.created_at, v.last_activity), (100, 100));
}

#[test]
fn create_vault_twice_fails() {
    let mut slot = vault_with_referrer(key(REFERRER));
    let r = process_create_vault(
        &signer(SESSION),
        &signer(MAIN),
        &mut slot,
        &CreateVault { referrer: key(0) },
        200,
    );
    assert_eq!(r.unwrap_err(), ProcessError::AccountAlreadyInitialized);
    assert_eq!(slot.data.unwrap().created_at, 100);
}

#[test]
fn create_vault_at_wrong_address_fails() {
    let mut slot = Record { key: key(SESSION), data: None };
    let r = process_create_vault(
        &signer(SESSION),
        &signer(MAIN),
        &mut slot,
        &CreateVault { referrer: key(0) },
        200,
    );
    assert_eq!(r.unwrap_err(), vault_err(MetatoolsError::InvalidPDA));
}

#[test]
fn open_position_charges_and_counts() {
    let config = config_with_defaults();
    let mut vault = vault_with_referrer(key(REFERRER));
    let mut position = position_slot(0);
    let out = process_open_position(
        &signer(SESSION),
        &mut vault,
        &mut position,
        &config,
        &open_args(1_000_000),
        300,
    )
    .unwrap();
    let amounts: Vec<(Pubkey, Pubkey, u64)> =
        out.transfers.iter().map(|t: &Transfer| (t.from, t.to, t.lamports)).collect();
    assert_eq!(
        amounts,
        vec![
            (key(SESSION), key(REFERRER), 700),
            (key(SESSION), key(BUYBACK), 3150),
            (key(SESSION), key(TREASURY), 3150),
        ]
    );
    assert_eq!(out.transfers.iter().map(|t| t.lamports).sum::<u64>(), 7000);
    let p = position.data.unwrap();
    assert_eq!(p.fee_paid, 7000);
    assert_eq!(p.position_id, 0);
    assert_eq!((p.initial_tvl, p.current_tvl), (1_000_000, 1_000_000));
    assert_eq!((p.fees_claimed, p.total_compounded), (0, 0));
    assert_eq!((p.opened_at, p.last_rebalance), (300, 300));
    assert_eq!(p.status, PositionStatus::Open);
    let v = vault.data.unwrap();
    assert_eq!(v.active_positions, 1);
    assert_eq!(v.next_position_id, 1);
    assert_eq!(v.total_value_locked, 1_000_000);
    assert_eq!(v.total_fees_paid, 7000);
    assert_eq!(v.last_activity, 300);
    assert_eq!(out.event.fee_paid, 7000);
    assert_eq!(out.event.position_id, 0);
}

#[test]
fn open_position_without_referrer_pays_treasury_more() {
    let config = config_with_defaults();
    let mut vault = vault_with_referrer(key(0));
    let mut position = position_slot(0);
    let out = process_open_position(
        &signer(SESSION),
        &mut vault,
        &mut position,
        &config,
        &open_args(1_000_000),
        300,
    )
    .unwrap();
    let amounts: Vec<u64> = out.transfers.iter().map(|t| t.lamports).collect();
    assert_eq!(amounts, vec![3150, 3850]);
}

#[test]
fn open_position_while_paused_fails_without_effects() {
    let mut config = config_with_defaults();
    process_update_config(&signer(ADMIN), &mut config, &update_args(10, 45, 45, 1)).unwrap();
    let mut vault = vault_with_referrer(key(REFERRER));
    let mut position = position_slot(0);
    let r = process_open_position(
        &signer(SESSION),
        &mut vault,
        &mut position,
        &config,
        &open_args(1_000_000),
        300,
    );
    assert_eq!(r.unwrap_err(), vault_err(MetatoolsError::ProgramPaused));
    assert!(position.data.is_none());
    let v = vault.data.unwrap();
    assert_eq!((v.active_positions, v.next_position_id, v.total_value_locked), (0, 0, 0));
}

#[test]
fn open_position_wrong_address_fails() {
    let config = config_with_defaults();
    let mut vault = vault_with_referrer(key(REFERRER));
    let mut position = position_slot(1);
    let r = process_open_position(
        &signer(SESSION),
        &mut vault,
        &mut position,
        &config,
        &open_args(1_000_000),
        300,
    );
    assert_eq!(r.unwrap_err(), vault_err(MetatoolsError::InvalidPDA));
    assert_eq!(vault.data.unwrap().next_position_id, 0);
}

#[test]
fn open_position_unknown_protocol_fails() {
    let config = config_with_defaults();
    let mut vault = vault_with_referrer(key(REFERRER));
    let mut position = position_slot(0);
    let mut args = open_args(1_000_000);
    args.protocol = 5;
    let r = process_open_position(&signer(SESSION), &mut vault, &mut position, &config, &args, 300);
    assert_eq!(r.unwrap_err(), vault_err(MetatoolsError::InvalidProtocol));
}

#[test]
fn open_position_by_other_wallet_is_unauthorized() {
    let config = config_with_defaults();
    let mut vault = vault_with_referrer(key(REFERRER));
    let mut position = position_slot(0);
    let r = process_open_position(
        &signer(7),
        &mut vault,
        &mut position,
        &config,
        &open_args(1_000_000),
        300,
    );
    assert_eq!(r.unwrap_err(), vault_err(MetatoolsError::InvalidPDA));
    vault.key = VaultMetadata::pda(&key(7)).unwrap().0;
    let mut other_slot = Record { key: Position::pda(&key(7), 0).unwrap().0, data: None };
    let r = process_open_position(
        &signer(7),
        &mut vault,
        &mut other_slot,
        &config,
        &open_args(1_000_000),
        300,
    );
    assert_eq!(r.unwrap_err(), vault_err(MetatoolsError::Unauthorized));
    assert!(other_slot.data.is_none());
}

#[test]
fn open_position_fee_overflow_fails() {
    let mut config = config_with_defaults();
    let mut c = config.data.unwrap();
    c.fee_bps = u16::MAX;
    config.data = Some(c);
    let mut vault = vault_with_referrer(key(REFERRER));
    let mut position = position_slot(0);
    let r = process_open_position(
        &signer(SESSION),
        &mut vault,
        &mut position,
        &config,
        &open_args(u64::MAX),
        300,
    );
    assert_eq!(r.unwrap_err(), vault_err(MetatoolsError::ArithmeticOverflow));
}

#[test]
fn open_position_value_locked_overflow_fails() {
    let config = config_with_defaults();
    let mut vault = vault_with_referrer(key(REFERRER));
    let mut v = vault.data.unwrap();
    v.total_value_locked = u64::MAX;
    vault.data = Some(v);
    let mut position = position_slot(0);
    let r = process_open_position(
        &signer(SESSION),
        &mut vault,
        &mut position,
        &config,
        &open_args(1),
        300,
    );
    assert_eq!(r.unwrap_err(), vault_err(MetatoolsError::ArithmeticOverflow));
    assert!(position.data.is_none());
}

fn opened() -> (Record<GlobalConfig>, Record<VaultMetadata>, Record<Position>) {
    let config = config_with_defaults();
    let mut vault = vault_with_referrer(key(REFERRER));
    let mut position = position_slot(0);
    process_open_position(
        &signer(SESSION),
        &mut vault,
        &mut position,
        &config,
        &open_args(1_000_000),
        300,
    )
    .unwrap();
    (config, vault, position)
}

#[test]
fn close_position_restores_count_and_moves_value() {
    let (_, mut vault, mut position) = opened();
    let ev = process_close_position(
        &signer(SESSION),
        &mut vault,
        &mut position,
        &ClosePosition { position_id: 0 },
        400,
    )
    .unwrap();
    assert_eq!(ev.final_tvl, 1_000_000);
    assert_eq!(ev.timestamp, 400);
    let v = vault.data.unwrap();
    assert_eq!(v.active_positions, 0);
    assert_eq!(v.total_value_locked, 0);
    assert_eq!(v.total_withdrawals, 1_000_000);
    assert_eq!(v.next_position_id, 1);
    assert_eq!(v.last_activity, 400);
    assert_eq!(position.data.unwrap().status, PositionStatus::Closed);
    let again = process_close_position(
        &signer(SESSION),
        &mut vault,
        &mut position,
        &ClosePosition { position_id: 0 },
        500,
    );
    assert_eq!(again.unwrap_err(), vault_err(MetatoolsError::InvalidPositionStatus));
    assert_eq!(vault.data.unwrap().total_withdrawals, 1_000_000);
}

#[test]
fn close_position_after_update_moves_current_value() {
    let (_, mut vault, mut position) = opened();
    let upd = UpdatePositionTVL {
        position_id: 0,
        new_tvl: 1_500_000,
        fees_claimed: 20,
        total_compounded: 5,
    };
    process_update_position_tvl(&signer(SESSION), &mut position, &upd, 350).unwrap();
    let ev = process_close_position(
        &signer(SESSION),
        &mut vault,
        &mut position,
        &ClosePosition { position_id: 0 },
        400,
    )
    .unwrap();
    assert_eq!((ev.final_tvl, ev.total_fees_claimed), (1_500_000, 20));
    let v = vault.data.unwrap();
    assert_eq!(v.total_value_locked, 0);
    assert_eq!(v.total_withdrawals, 1_500_000);
}

#[test]
fn update_position_overwrites_values() {
    let (_, _, mut position) = opened();
    let upd = UpdatePositionTVL {
        position_id: 0,
        new_tvl: 900_000,
        fees_claimed: 12,
        total_compounded: 3,
    };
    let ev = process_update_position_tvl(&signer(SESSION), &mut position, &upd, 350).unwrap();
    assert_eq!(ev.new_tvl, 900_000);
    let p = position.data.unwrap();
    assert_eq!((p.current_tvl, p.fees_claimed, p.total_compounded), (900_000, 12, 3));
    assert_eq!(p.initial_tvl, 1_000_000);
    assert_eq!(p.last_rebalance, 350);
    assert_eq!(p.opened_at, 300);
}

#[test]
fn update_closed_position_fails_unchanged() {
    let (_, mut vault, mut position) = opened();
    process_close_position(
        &signer(SESSION),
        &mut vault,
        &mut position,
        &ClosePosition { position_id: 0 },
        400,
    )
    .unwrap();
    let upd = UpdatePositionTVL { position_id: 0, new_tvl: 5, fees_claimed: 6, total_compounded: 7 };
    let r = process_update_position_tvl(&signer(SESSION), &mut position, &upd, 450);
    assert_eq!(r.unwrap_err(), vault_err(MetatoolsError::InvalidPositionStatus));
    let p = position.data.unwrap();
    assert_eq!((p.current_tvl, p.fees_claimed, p.total_compounded), (1_000_000, 0, 0));
    assert_eq!(p.last_rebalance, 300);
}

#[test]
fn update_missing_position_fails() {
    let mut position = position_slot(3);
    let upd = UpdatePositionTVL { position_id: 3, new_tvl: 5, fees_claimed: 6, total_compounded: 7 };
    let r = process_update_position_tvl(&signer(SESSION), &mut position, &upd, 450);
    assert_eq!(r.unwrap_err(), vault_err(MetatoolsError::PositionNotFound));
}

#[test]
fn update_position_of_other_wallet_fails() {
    let (_, _, mut position) = opened();
    let mut p = position.data.unwrap();
    p.session_wallet = key(8);
    position.data = Some(p);
    let upd = UpdatePositionTVL { position_id: 0, new_tvl: 5, fees_claimed: 6, total_compounded: 7 };
    let r = process_update_position_tvl(&signer(SESSION), &mut position, &upd, 450);
    assert_eq!(r.unwrap_err(), vault_err(MetatoolsError::Unauthorized));
}

#[test]
fn close_vault_needs_no_open_positions() {
    let (config, mut vault, mut position) = opened();
    let r = process_close_vault(&signer(SESSION), &mut vault, 500);
    assert_eq!(r, Err(vault_err(MetatoolsError::VaultHasOpenPositions)));
    process_close_position(
        &signer(SESSION),
        &mut vault,
        &mut position,
        &ClosePosition { position_id: 0 },
        600,
    )
    .unwrap();
    process_close_vault(&signer(SESSION), &mut vault, 700).unwrap();
    assert_eq!(vault.data.unwrap().status, VaultStatus::Closed);
    let mut next = position_slot(1);
    let r = process_open_position(
        &signer(SESSION),
        &mut vault,
        &mut next,
        &config,
        &open_args(10),
        800,
    );
    assert_eq!(r.unwrap_err(), vault_err(MetatoolsError::InvalidVaultStatus));
}

#[test]
fn second_position_gets_next_id() {
    let (config, mut vault, _) = opened();
    let mut second = position_slot(1);
    let out = process_open_position(
        &signer(SESSION),
        &mut vault,
        &mut second,
        &config,
        &open_args(2_000_000),
        310,
    )
    .unwrap();
    assert_eq!(out.event.position_id, 1);
    let v = vault.data.unwrap();
    assert_eq!((v.active_positions, v.next_position_id), (2, 2));
    assert_eq!(v.total_value_locked, 3_000_000);
    assert_eq!(v.total_fees_paid, 7000 + 14000);
}

#[test]
fn open_position_with_vault_at_wrong_address_fails() {
    let config = config_with_defaults();
    let mut vault = vault_with_referrer(key(REFERRER));
    vault.key = key(9);
    let mut position = position_slot(0);
    let r = process_open_position(
        &signer(SESSION),
        &mut vault,
        &mut position,
        &config,
        &open_args(1_000_000),
        300,
    );
    assert_eq!(r.unwrap_err(), vault_err(MetatoolsError::InvalidPDA));
    assert!(position.data.is_none());
    assert_eq!(vault.data.unwrap().active_positions, 0);
}

#[test]
fn open_position_with_config_at_wrong_address_fails() {
    let mut config = config_with_defaults();
    config.key = key(9);
    let mut vault = vault_with_referrer(key(REFERRER));
    let mut position = position_slot(0);
    let r = process_open_position(
        &signer(SESSION),
        &mut vault,
        &mut position,
        &config,
        &open_args(1_000_000),
        300,
    );
    assert_eq!(r.unwrap_err(), vault_err(MetatoolsError::InvalidPDA));
    assert!(position.data.is_none());
}

#[test]
fn close_position_with_vault_at_wrong_address_fails() {
    let (_, mut vault, mut position) = opened();
    vault.key = key(9);
    let r = process_close_position(
        &signer(SESSION),
        &mut vault,
        &mut position,
        &ClosePosition { position_id: 0 },
        400,
    );
    assert_eq!(r.unwrap_err(), vault_err(MetatoolsError::InvalidPDA));
    assert_eq!(position.data.unwrap().status, PositionStatus::Open);
    assert_eq!(vault.data.unwrap().active_positions, 1);
}
