use vstd::prelude::*;
use crate::pubkey::Pubkey;
use crate::address::{
    config_address, derived_view, position_address, program_id, program_id_spec, vault_address,
};
use crate::state::{GlobalConfig, Position, VaultMetadata};
use crate::instruction::{
    close_position_body, create_vault_body, initialize_config_body, open_position_body,
    update_config_body, update_position_tvl_body, ClosePosition, CreateVault, InitializeConfig,
    OpenPosition, UpdateConfig, UpdatePositionTVL,
};

verus! {

/// An account that an instruction names, and how it is used.
#[derive(Clone, Copy, Debug)]
pub struct AccountMeta {
    pub pubkey: Pubkey,
    pub is_signer: bool,
    pub is_writable: bool,
}

/// A request to the program: its id, the accounts it names and the instruction bytes.
#[derive(Clone, Debug)]
pub struct Instruction {
    pub program_id: Pubkey,
    pub accounts: Vec<AccountMeta>,
    pub data: Vec<u8>,
}

/// The accounts as plain values: (key, signer, writable).
pub open spec fn metas_view(s: Seq<AccountMeta>) -> Seq<(Seq<u8>, bool, bool)> {
    s.map_values(|m: AccountMeta| (m.pubkey@, m.is_signer, m.is_writable))
}

/// The system program's identity, all zero bytes.
pub open spec fn system_program_id() -> Seq<u8> {
    Seq::new(32, |i: int| 0u8)
}

/// The derived key, where there is one.
pub open spec fn derived_key(d: Option<(Seq<u8>, u8)>) -> Seq<u8> {
    d.unwrap().0
}

fn meta(pubkey: Pubkey, is_signer: bool, is_writable: bool) -> (r: AccountMeta)
    ensures
        r == (AccountMeta { pubkey, is_signer, is_writable }),
{
    AccountMeta { pubkey, is_signer, is_writable }
}

/// Builds the instruction that creates the configuration; `None` where its address cannot
/// be derived.
pub fn initialize_config(
    admin: Pubkey,
    treasury: Pubkey,
    buyback_wallet: Pubkey,
    fee_bps: u16,
    referral_pct: u8,
    buyback_pct: u8,
    treasury_pct: u8,
) -> (r: Option<Instruction>)
    ensures
        r is None <==> config_address() is None,
        r matches Some(ix) ==> {
            &&& ix.program_id@ == program_id_spec()
            &&& metas_view(ix.accounts@) == seq![
                (admin@, true, true),
                (derived_key(config_address()), false, true),
                (system_program_id(), false, false),
            ]
            &&& ix.data@ == seq![0u8] + initialize_config_body(
                InitializeConfig {
                    treasury,
                    buyback_wallet,
                    fee_bps,
                    referral_pct,
                    buyback_pct,
                    treasury_pct,
                },
            )
        },
{
    let config_pda = match GlobalConfig::pda() {
        Some((k, _)) => k,
        None => {
            return None;
        },
    };
    let args = InitializeConfig {
        treasury,
        buyback_wallet,
        fee_bps,
        referral_pct,
        buyback_pct,
        treasury_pct,
    };
    let accounts = vec![
        meta(admin, true, true),
        meta(config_pda, false, true),
        meta(Pubkey::zeroed(), false, false),
    ];
    let ix = Instruction { program_id: program_id(), accounts, data: args.to_bytes() };
    assert(metas_view(ix.accounts@) =~= seq![
        (admin@, true, true),
        (derived_key(config_address()), false, true),
        (system_program_id(), false, false),
    ]);
    Some(ix)
}

/// Builds the instruction that creates the vault of `session_wallet`.
pub fn create_vault(main_wallet: Pubkey, session_wallet: Pubkey, referrer: Pubkey) -> (r: Option<
    Instruction,
>)
    ensures
        r is None <==> vault_address(session_wallet@) is None,
        r matches Some(ix) ==> {
            &&& ix.program_id@ == program_id_spec()
            &&& metas_view(ix.accounts@) == seq![
                (session_wallet@, true, true),
                (main_wallet@, true, true),
                (derived_key(vault_address(session_wallet@)), false, true),
                (system_program_id(), false, false),
            ]
            &&& ix.data@ == seq![1u8] + create_vault_body(CreateVault { referrer })
        },
{
    let vault_pda = match VaultMetadata::pda(&session_wallet) {
        Some((k, _)) => k,
        None => {
            return None;
        },
    };
    let args = CreateVault { referrer };
    let accounts = vec![
        meta(session_wallet, true, true),
        meta(main_wallet, true, true),
        meta(vault_pda, false, true),
        meta(Pubkey::zeroed(), false, false),
    ];
    let ix = Instruction { program_id: program_id(), accounts, data: args.to_bytes() };
    assert(metas_view(ix.accounts@) =~= seq![
        (session_wallet@, true, true),
        (main_wallet@, true, true),
        (derived_key(vault_address(session_wallet@)), false, true),
        (system_program_id(), false, false),
    ]);
    Some(ix)
}

/// Builds the instruction that opens position `position_id` (the vault's next id) of
/// `session_wallet`, naming the accounts that receive the fee shares.
pub fn open_position(
    session_wallet: Pubkey,
    position_id: u64,
    treasury: Pubkey,
    buyback_wallet: Pubkey,
    referrer: Pubkey,
    pool: Pubkey,
    base_mint: Pubkey,
    quote_mint: Pubkey,
    initial_tvl: u64,
    protocol: u8,
    strategy: u8,
) -> (r: Option<Instruction>)
    ensures
        r is None <==> vault_address(session_wallet@) is None || position_address(
            session_wallet@,
            position_id,
        ) is None || config_address() is None,
        r matches Some(ix) ==> {
            &&& ix.program_id@ == program_id_spec()
            &&& metas_view(ix.accounts@) == seq![
                (session_wallet@, true, true),
                (derived_key(vault_address(session_wallet@)), false, true),
                (derived_key(position_address(session_wallet@, position_id)), false, true),
                (derived_key(config_address()), false, false),
                (treasury@, false, true),
                (buyback_wallet@, false, true),
                (referrer@, false, true),
                (system_program_id(), false, false),
            ]
            &&& ix.data@ == seq![3u8] + open_position_body(
                OpenPosition { pool, base_mint, quote_mint, initial_tvl, protocol, strategy },
            )
        },
{
    let vault_pda = match VaultMetadata::pda(&session_wallet) {
        Some((k, _)) => k,
        None => {
            return None;
        },
    };
    let position_pda = match Position::pda(&session_wallet, position_id) {
        Some((k, _)) => k,
        None => {
            return None;
        },
    };
    let config_pda = match GlobalConfig::pda() {
        Some((k, _)) => k,
        None => {
            return None;
        },
    };
    let args = OpenPosition { pool, base_mint, quote_mint, initial_tvl, protocol, strategy };
    let accounts = vec![
        meta(session_wallet, true, true),
        meta(vault_pda, false, true),
        meta(position_pda, false, true),
        meta(config_pda, false, false),
        meta(treasury, false, true),
        meta(buyback_wallet, false, true),
        meta(referrer, false, true),
        meta(Pubkey::zeroed(), false, false),
    ];
    let ix = Instruction { program_id: program_id(), accounts, data: args.to_bytes() };
    assert(metas_view(ix.accounts@) =~= seq![
        (session_wallet@, true, true),
        (derived_key(vault_address(session_wallet@)), false, true),
        (derived_key(position_address(session_wallet@, position_id)), false, true),
        (derived_key(config_address()), false, false),
        (treasury@, false, true),
        (buyback_wallet@, false, true),
        (referrer@, false, true),
        (system_program_id(), false, false),
    ]);
    Some(ix)
}

/// Builds the instruction that closes position `position_id` of `session_wallet`.
pub fn close_position(session_wallet: Pubkey, position_id: u64) -> (r: Option<Instruction>)
    ensures
        r is None <==> vault_address(session_wallet@) is None || position_address(
            session_wallet@,
            position_id,
        ) is None,
        r matches Some(ix) ==> {
            &&& ix.program_id@ == program_id_spec()
            &&& metas_view(ix.accounts@) == seq![
                (session_wallet@, true, true),
                (derived_key(vault_address(session_wallet@)), false, true),
                (derived_key(position_address(session_wallet@, position_id)), false, true),
            ]
            &&& ix.data@ == seq![4u8] + close_position_body(ClosePosition { position_id })
        },
{
    let vault_pda = match VaultMetadata::pda(&session_wallet) {
        Some((k, _)) => k,
        None => {
            return None;
        },
    };
    let position_pda = match Position::pda(&session_wallet, position_id) {
        Some((k, _)) => k,
        None => {
            return None;
        },
    };
    let args = ClosePosition { position_id };
    let accounts = vec![
        meta(session_wallet, true, true),
        meta(vault_pda, false, true),
        meta(position_pda, false, true),
    ];
    let ix = Instruction { program_id: program_id(), accounts, data: args.to_bytes() };
    assert(metas_view(ix.accounts@) =~= seq![
        (session_wallet@, true, true),
        (derived_key(vault_address(session_wallet@)), false, true),
        (derived_key(position_address(session_wallet@, position_id)), false, true),
    ]);
    Some(ix)
}

/// Builds the instruction that records new values for position `position_id`.
pub fn update_position_tvl(
    session_wallet: Pubkey,
    position_id: u64,
    new_tvl: u64,
    fees_claimed: u64,
    total_compounded: u64,
) -> (r: Option<Instruction>)
    ensures
        r is None <==> position_address(session_wallet@, position_id) is None,
        r matches Some(ix) ==> {
            &&& ix.program_id@ == program_id_spec()
            &&& metas_view(ix.accounts@) == seq![
                (session_wallet@, true, true),
                (derived_key(position_address(session_wallet@, position_id)), false, true),
            ]
            &&& ix.data@ == seq![5u8] + update_position_tvl_body(
                UpdatePositionTVL { position_id, new_tvl, fees_claimed, total_compounded },
            )
        },
{
    let position_pda = match Position::pda(&session_wallet, position_id) {
        Some((k, _)) => k,
        None => {
            return None;
        },
    };
    let args = UpdatePositionTVL { position_id, new_tvl, fees_claimed, total_compounded };
    let accounts = vec![meta(session_wallet, true, true), meta(position_pda, false, true)];
    let ix = Instruction { program_id: program_id(), accounts, data: args.to_bytes() };
    assert(metas_view(ix.accounts@) =~= seq![
        (session_wallet@, true, true),
        (derived_key(position_address(session_wallet@, position_id)), false, true),
    ]);
    Some(ix)
}

/// Builds the instruction that overwrites the configuration.
pub fn update_config(
    admin: Pubkey,
    new_treasury: Pubkey,
    new_buyback_wallet: Pubkey,
    new_fee_bps: u16,
    new_referral_pct: u8,
    new_buyback_pct: u8,
    new_treasury_pct: u8,
    paused: u8,
) -> (r: Option<Instruction>)
    ensures
        r is None <==> config_address() is None,
        r matches Some(ix) ==> {
            &&& ix.program_id@ == program_id_spec()
            &&& metas_view(ix.accounts@) == seq![
                (admin@, true, true),
                (derived_key(config_address()), false, true),
            ]
            &&& ix.data@ == seq![6u8] + update_config_body(
                UpdateConfig {
                    new_treasury,
                    new_buyback_wallet,
                    new_fee_bps,
                    new_referral_pct,
                    new_buyback_pct,
                    new_treasury_pct,
                    paused,
                },
            )
        },
{
    let config_pda = match GlobalConfig::pda() {
        Some((k, _)) => k,
        None => {
            return None;
        },
    };
    let args = UpdateConfig {
        new_treasury,
        new_buyback_wallet,
        new_fee_bps,
        new_referral_pct,
        new_buyback_pct,
        new_treasury_pct,
        paused,
    };
    let accounts = vec![meta(admin, true, true), meta(config_pda, false, true)];
    let ix = Instruction { program_id: program_id(), accounts, data: args.to_bytes() };
    assert(metas_view(ix.accounts@) =~= seq![
        (admin@, true, true),
        (derived_key(config_address()), false, true),
    ]);
    Some(ix)
}

} // verus!
