use vstd::prelude::*;
use crate::pubkey::Pubkey;
use crate::address::{
    config_address, derive_config_address, derive_position_address, derive_vault_address,
    derived_view, position_address, vault_address,
};

verus! {

/// Which kind of record an account holds.
#[derive(Clone, Copy, Debug, PartialEq, Eq, Structural)]
pub enum MetatoolsAccount {
    VaultMetadata,
    Position,
    GlobalConfig,
}

/// A storage slot at a derived address, empty until its record is created.
#[derive(Clone, Copy, Debug)]
pub struct Record<T> {
    pub key: Pubkey,
    pub data: Option<T>,
}

/// An identity handed to an operation, and whether it signed.
#[derive(Clone, Copy, Debug)]
pub struct Signer {
    pub key: Pubkey,
    pub is_signer: bool,
}

/// The program-wide settings, one record for the whole program.
#[derive(Clone, Copy, Debug)]
pub struct GlobalConfig {
    pub admin: Pubkey,
    pub treasury: Pubkey,
    pub buyback_wallet: Pubkey,
    /// Fee in basis points (70 = 0.7%).
    pub fee_bps: u16,
    pub referral_percentage: u8,
    pub buyback_percentage: u8,
    pub treasury_percentage: u8,
    pub paused: bool,
}

impl GlobalConfig {
    pub const DEFAULT_FEE_BPS: u16 = 70;

    pub const DEFAULT_REFERRAL_PCT: u8 = 10;

    pub const DEFAULT_BUYBACK_PCT: u8 = 45;

    pub const DEFAULT_TREASURY_PCT: u8 = 45;

    /// The configuration's invariant: the three shares make a whole.
    pub open spec fn wf(&self) -> bool {
        self.referral_percentage + self.buyback_percentage + self.treasury_percentage == 100
    }

    /// The address of the configuration record. Seeds: `["config"]`.
    pub fn pda() -> (r: Option<(Pubkey, u8)>)
        ensures
            derived_view(r) == config_address(),
    {
        derive_config_address()
    }
}

#[derive(Clone, Copy, Debug, PartialEq, Eq, Structural)]
pub enum VaultStatus {
    Active,
    Paused,
    Closed,
}

/// The ledger of one session wallet.
#[derive(Clone, Copy, Debug)]
pub struct VaultMetadata {
    /// The owning session wallet.
    pub session_wallet: Pubkey,
    /// The main wallet the vault is attributed to.
    pub main_wallet: Pubkey,
    /// The referrer; all zero when there is none.
    pub referrer: Pubkey,
    pub total_value_locked: u64,
    pub total_deposits: u64,
    pub total_withdrawals: u64,
    pub total_fees_paid: u64,
    pub next_position_id: u64,
    pub created_at: i64,
    pub last_activity: i64,
    pub active_positions: u32,
    pub status: VaultStatus,
}

impl VaultMetadata {
    /// The address of the vault record of `session_wallet`.
    /// Seeds: `["vault_metadata", session_wallet]`.
    pub fn pda(session_wallet: &Pubkey) -> (r: Option<(Pubkey, u8)>)
        ensures
            derived_view(r) == vault_address(session_wallet@),
    {
        derive_vault_address(session_wallet)
    }
}

#[derive(Clone, Copy, Debug, PartialEq, Eq, Structural)]
pub enum PositionStatus {
    Open,
    Closed,
}

/// One position of a vault in an outside pool.
#[derive(Clone, Copy, Debug)]
pub struct Position {
    pub session_wallet: Pubkey,
    pub pool: Pubkey,
    pub base_mint: Pubkey,
    pub quote_mint: Pubkey,
    pub position_id: u64,
    pub initial_tvl: u64,
    pub current_tvl: u64,
    pub fee_paid: u64,
    pub fees_claimed: u64,
    pub total_compounded: u64,
    pub opened_at: i64,
    pub last_rebalance: i64,
    /// Pool kind: 0 DLMM, 1 DAMMv2, 2 DAMMv1, 3 DBC, 4 AlphaVault.
    pub protocol: u8,
    /// Strategy tag: 0 Manual, 1 AutoCompound, 2 RangeRebalance, 3 StopLoss,
    /// 4 TakeProfit, 5 AutoCompoundRebalance.
    pub strategy: u8,
    pub status: PositionStatus,
}

impl Position {
    pub const PROTOCOL_DLMM: u8 = 0;

    pub const PROTOCOL_DAMM_V2: u8 = 1;

    pub const PROTOCOL_DAMM_V1: u8 = 2;

    pub const PROTOCOL_DBC: u8 = 3;

    pub const PROTOCOL_ALPHA_VAULT: u8 = 4;

    pub const STRATEGY_MANUAL: u8 = 0;

    pub const STRATEGY_AUTO_COMPOUND: u8 = 1;

    pub const STRATEGY_RANGE_REBALANCE: u8 = 2;

    pub const STRATEGY_STOP_LOSS: u8 = 3;

    pub const STRATEGY_TAKE_PROFIT: u8 = 4;

    pub const STRATEGY_AUTO_COMPOUND_REBALANCE: u8 = 5;

    /// The address of position `position_id` of `session_wallet`.
    /// Seeds: `["position", session_wallet, position_id as 8 little-endian bytes]`.
    pub fn pda(session_wallet: &Pubkey, position_id: u64) -> (r: Option<(Pubkey, u8)>)
        ensures
            derived_view(r) == position_address(session_wallet@, position_id),
    {
        derive_position_address(session_wallet, position_id)
    }
}

/// Whether a protocol tag names a known pool kind.
pub open spec fn protocol_known(protocol: u8) -> bool {
    protocol <= 4
}

} // verus!
