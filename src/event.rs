use vstd::prelude::*;
use crate::pubkey::Pubkey;

verus! {

#[derive(Clone, Copy, Debug)]
pub struct VaultCreatedEvent {
    pub session_wallet: Pubkey,
    pub main_wallet: Pubkey,
    pub timestamp: i64,
}

#[derive(Clone, Copy, Debug)]
pub struct PositionOpenedEvent {
    pub session_wallet: Pubkey,
    pub pool: Pubkey,
    pub position_id: u64,
    pub initial_tvl: u64,
    pub fee_paid: u64,
    pub timestamp: i64,
    pub protocol: u8,
}

#[derive(Clone, Copy, Debug)]
pub struct PositionClosedEvent {
    pub session_wallet: Pubkey,
    pub position_id: u64,
    pub final_tvl: u64,
    pub total_fees_claimed: u64,
    pub timestamp: i64,
}

#[derive(Clone, Copy, Debug)]
pub struct PositionUpdatedEvent {
    pub session_wallet: Pubkey,
    pub position_id: u64,
    pub new_tvl: u64,
    pub fees_claimed: u64,
    pub timestamp: i64,
}

/// A movement of lamports that an operation asks the host to make.
#[derive(Clone, Copy, Debug)]
pub struct Transfer {
    pub from: Pubkey,
    pub to: Pubkey,
    pub lamports: u64,
}

} // verus!
