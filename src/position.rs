use vstd::prelude::*;
use crate::pubkey::Pubkey;
use crate::error::{MetatoolsError, ProcessError};
use crate::fee::{checked_fee, fee_of, percentages_sum_to_whole, split, split_of};
use crate::address::{
    config_address, is_derived, matches_derived, position_address, vault_address,
};
use crate::state::{
    protocol_known, GlobalConfig, Position, PositionStatus, Record, Signer, VaultMetadata,
    VaultStatus,
};
use crate::instruction::{ClosePosition, OpenPosition, UpdatePositionTVL};
use crate::event::{PositionClosedEvent, PositionOpenedEvent, PositionUpdatedEvent, Transfer};

verus! {

/// What a successful open hands back: the notification, and the fee transfers that the
/// host must make, all of them or none, for the open to stand.
#[derive(Clone, Debug)]
pub struct PositionOpened {
    pub event: PositionOpenedEvent,
    pub transfers: Vec<Transfer>,
}

/// The fee on opening a position of `tvl` under `c`.
pub open spec fn open_fee(c: GlobalConfig, tvl: u64) -> int {
    fee_of(tvl as int, c.fee_bps as int)
}

/// The split of `fee` under `c` for vault `v`: the referral share goes only to a vault
/// that has a referrer.
pub open spec fn fee_split(c: GlobalConfig, v: VaultMetadata, fee: int) -> (int, int, int) {
    split_of(
        fee,
        c.referral_percentage as int,
        c.buyback_percentage as int,
        !v.referrer.is_zero_spec(),
    )
}

/// The transfers that pay `fee` from `payer`: the referral share when it is positive,
/// then the buyback share, then the treasury share.
pub open spec fn fee_transfers(payer: Pubkey, c: GlobalConfig, v: VaultMetadata, fee: int) -> Seq<
    Transfer,
> {
    let (referral, buyback, treasury) = fee_split(c, v, fee);
    let rest = seq![
        Transfer { from: payer, to: c.buyback_wallet, lamports: buyback as u64 },
        Transfer { from: payer, to: c.treasury, lamports: treasury as u64 },
    ];
    if referral > 0 {
        seq![Transfer { from: payer, to: v.referrer, lamports: referral as u64 }] + rest
    } else {
        rest
    }
}

/// The total of a list of transfers.
pub open spec fn transfers_total(ts: Seq<Transfer>) -> int
    decreases ts.len(),
{
    if ts.len() == 0 {
        0
    } else {
        transfers_total(ts.drop_last()) + ts.last().lamports
    }
}

/// The first reason, if any, for which a position is not opened.
pub open spec fn open_position_error(
    session_wallet: Signer,
    vault: Record<VaultMetadata>,
    position: Record<Position>,
    config: Record<GlobalConfig>,
    args: OpenPosition,
) -> Option<ProcessError> {
    let c = config.data.unwrap();
    let v = vault.data.unwrap();
    let fee = open_fee(c, args.initial_tvl);
    if !session_wallet.is_signer {
        Some(ProcessError::MissingRequiredSignature)
    } else if !is_derived(config_address(), config.key@) {
        Some(ProcessError::Vault(MetatoolsError::InvalidPDA))
    } else if config.data is None {
        Some(ProcessError::UninitializedAccount)
    } else if c.paused {
        Some(ProcessError::Vault(MetatoolsError::ProgramPaused))
    } else if !c.wf() {
        Some(ProcessError::Vault(MetatoolsError::InvalidFeeConfig))
    } else if !is_derived(vault_address(session_wallet.key@), vault.key@) {
        Some(ProcessError::Vault(MetatoolsError::InvalidPDA))
    } else if vault.data is None {
        Some(ProcessError::UninitializedAccount)
    } else if v.session_wallet@ != session_wallet.key@ {
        Some(ProcessError::Vault(MetatoolsError::Unauthorized))
    } else if v.status != VaultStatus::Active {
        Some(ProcessError::Vault(MetatoolsError::InvalidVaultStatus))
    } else if !protocol_known(args.protocol) {
        Some(ProcessError::Vault(MetatoolsError::InvalidProtocol))
    } else if fee > u64::MAX {
        Some(ProcessError::Vault(MetatoolsError::ArithmeticOverflow))
    } else if !is_derived(
        position_address(session_wallet.key@, v.next_position_id),
        position.key@,
    ) {
        Some(ProcessError::Vault(MetatoolsError::InvalidPDA))
    } else if position.data is Some {
        Some(ProcessError::AccountAlreadyInitialized)
    } else if v.active_positions + 1 > u32::MAX || v.next_position_id + 1 > u64::MAX
        || v.total_fees_paid + fee > u64::MAX || v.total_value_locked + args.initial_tvl
        > u64::MAX {
        Some(ProcessError::Vault(MetatoolsError::ArithmeticOverflow))
    } else {
        None
    }
}

/// The position that an open creates.
pub open spec fn opened_position(
    session_wallet: Pubkey,
    v: VaultMetadata,
    args: OpenPosition,
    fee: int,
    now: i64,
) -> Position {
    Position {
        session_wallet: session_wallet,
        pool: args.pool,
        base_mint: args.base_mint,
        quote_mint: args.quote_mint,
        position_id: v.next_position_id,
        initial_tvl: args.initial_tvl,
        current_tvl: args.initial_tvl,
        fee_paid: fee as u64,
        fees_claimed: 0,
        total_compounded: 0,
        opened_at: now,
        last_rebalance: now,
        protocol: args.protocol,
        strategy: args.strategy,
        status: PositionStatus::Open,
    }
}

/// The vault after one more position of `tvl` was opened with `fee` paid.
pub open spec fn vault_after_open(v: VaultMetadata, fee: int, tvl: u64, now: i64) -> VaultMetadata {
    VaultMetadata {
        active_positions: (v.active_positions + 1) as u32,
        next_position_id: (v.next_position_id + 1) as u64,
        total_fees_paid: (v.total_fees_paid + fee) as u64,
        total_value_locked: (v.total_value_locked + tvl) as u64,
        last_activity: now,
        ..v
    }
}

/// Opens the vault's next position: charges the configured fee, split between referrer,
/// buyback and treasury, creates the position record at its derived address and counts
/// it in the vault.
pub fn process_open_position(
    session_wallet: &Signer,
    vault: &mut Record<VaultMetadata>,
    position: &mut Record<Position>,
    config: &Record<GlobalConfig>,
    args: &OpenPosition,
    now: i64,
) -> (r: Result<PositionOpened, ProcessError>)
    ensures
        open_position_error(*session_wallet, *old(vault), *old(position), *config, *args) matches Some(
            e,
        ) ==> r matches Err(e2) && e2 == e && *final(vault) == *old(vault) && *final(position)
            == *old(position),
        open_position_error(*session_wallet, *old(vault), *old(position), *config, *args) is None
            ==> {
            let c = config.data.unwrap();
            let v = old(vault).data.unwrap();
            let fee = open_fee(c, args.initial_tvl);
            &&& r matches Ok(out) && out.transfers@ == fee_transfers(session_wallet.key, c, v, fee)
                && out.event == (PositionOpenedEvent {
                session_wallet: session_wallet.key,
                pool: args.pool,
                position_id: v.next_position_id,
                initial_tvl: args.initial_tvl,
                fee_paid: fee as u64,
                timestamp: now,
                protocol: args.protocol,
            })
            &&& final(position).key == old(position).key
            &&& final(position).data == Some(
                opened_position(session_wallet.key, v, *args, fee, now),
            )
            &&& final(vault).key == old(vault).key
            &&& final(vault).data == Some(vault_after_open(v, fee, args.initial_tvl, now))
        },
{
    if !session_wallet.is_signer {
        return Err(ProcessError::MissingRequiredSignature);
    }
    let config_derived = GlobalConfig::pda();
    if !matches_derived(&config_derived, &config.key) {
        return Err(ProcessError::Vault(MetatoolsError::InvalidPDA));
    }
    let c = match config.data {
        Some(c) => c,
        None => {
            return Err(ProcessError::UninitializedAccount);
        },
    };
    if c.paused {
        return Err(ProcessError::Vault(MetatoolsError::ProgramPaused));
    }
    if !percentages_sum_to_whole(c.referral_percentage, c.buyback_percentage, c.treasury_percentage) {
        return Err(ProcessError::Vault(MetatoolsError::InvalidFeeConfig));
    }
    let vault_derived = VaultMetadata::pda(&session_wallet.key);
    if !matches_derived(&vault_derived, &vault.key) {
        return Err(ProcessError::Vault(MetatoolsError::InvalidPDA));
    }
    let v = match vault.data {
        Some(v) => v,
        None => {
            return Err(ProcessError::UninitializedAccount);
        },
    };
    if v.session_wallet != session_wallet.key {
        return Err(ProcessError::Vault(MetatoolsError::Unauthorized));
    }
    if v.status != VaultStatus::Active {
        return Err(ProcessError::Vault(MetatoolsError::InvalidVaultStatus));
    }
    if args.protocol > Position::PROTOCOL_ALPHA_VAULT {
        return Err(ProcessError::Vault(MetatoolsError::InvalidProtocol));
    }
    let fee = match checked_fee(args.initial_tvl, c.fee_bps) {
        Some(f) => f,
        None => {
            return Err(ProcessError::Vault(MetatoolsError::ArithmeticOverflow));
        },
    };
    let position_id = v.next_position_id;
    let derived = Position::pda(&session_wallet.key, position_id);
    if !matches_derived(&derived, &position.key) {
        return Err(ProcessError::Vault(MetatoolsError::InvalidPDA));
    }
    if position.data.is_some() {
        return Err(ProcessError::AccountAlreadyInitialized);
    }
    if v.active_positions == u32::MAX || v.next_position_id == u64::MAX || v.total_fees_paid
        > u64::MAX - fee || v.total_value_locked > u64::MAX - args.initial_tvl {
        return Err(ProcessError::Vault(MetatoolsError::ArithmeticOverflow));
    }
    let has_referrer = !v.referrer.is_zero();
    let (referral_fee, buyback_fee, treasury_fee) = split(
        fee,
        c.referral_percentage,
        c.buyback_percentage,
        has_referrer,
    );
    let mut transfers: Vec<Transfer> = Vec::new();
    if referral_fee > 0 {
        transfers.push(Transfer { from: session_wallet.key, to: v.referrer, lamports: referral_fee });
    }
    transfers.push(Transfer { from: session_wallet.key, to: c.buyback_wallet, lamports: buyback_fee });
    transfers.push(Transfer { from: session_wallet.key, to: c.treasury, lamports: treasury_fee });
    proof {
        assert(transfers@ =~= fee_transfers(session_wallet.key, c, v, fee as int));
    }
    position.data = Some(
        Position {
            session_wallet: session_wallet.key,
            pool: args.pool,
            base_mint: args.base_mint,
            quote_mint: args.quote_mint,
            position_id: position_id,
            initial_tvl: args.initial_tvl,
            current_tvl: args.initial_tvl,
            fee_paid: fee,
            fees_claimed: 0,
            total_compounded: 0,
            opened_at: now,
            last_rebalance: now,
            protocol: args.protocol,
            strategy: args.strategy,
            status: PositionStatus::Open,
        },
    );
    vault.data = Some(
        VaultMetadata {
            active_positions: v.active_positions + 1,
            next_position_id: v.next_position_id + 1,
            total_fees_paid: v.total_fees_paid + fee,
            total_value_locked: v.total_value_locked + args.initial_tvl,
            last_activity: now,
            ..v
        },
    );
    let event = PositionOpenedEvent {
        session_wallet: session_wallet.key,
        pool: args.pool,
        position_id: position_id,
        initial_tvl: args.initial_tvl,
        fee_paid: fee,
        timestamp: now,
        protocol: args.protocol,
    };
    Ok(PositionOpened { event, transfers })
}

/// The first reason, if any, for which the position record named by `position_id` of
/// `session_wallet` cannot be changed: it must sit at its derived address, exist, belong to
/// the session wallet and be open.
pub open spec fn position_change_error(
    session_wallet: Signer,
    position: Record<Position>,
    position_id: u64,
) -> Option<ProcessError> {
    let p = position.data.unwrap();
    if !session_wallet.is_signer {
        Some(ProcessError::MissingRequiredSignature)
    } else if !is_derived(position_address(session_wallet.key@, position_id), position.key@) {
        Some(ProcessError::Vault(MetatoolsError::InvalidPDA))
    } else if position.data is None {
        Some(ProcessError::Vault(MetatoolsError::PositionNotFound))
    } else if p.session_wallet@ != session_wallet.key@ {
        Some(ProcessError::Vault(MetatoolsError::Unauthorized))
    } else if p.status != PositionStatus::Open {
        Some(ProcessError::Vault(MetatoolsError::InvalidPositionStatus))
    } else {
        None
    }
}

/// Checks the position part of a close or an update; on success hands back the record.
fn check_position(
    session_wallet: &Signer,
    position: &Record<Position>,
    position_id: u64,
) -> (r: Result<Position, ProcessError>)
    ensures
        position_change_error(*session_wallet, *position, position_id) matches Some(e) ==> r
            == Err::<Position, ProcessError>(e),
        position_change_error(*session_wallet, *position, position_id) is None ==> r == Ok::<
            Position,
            ProcessError,
        >(position.data.unwrap()),
{
    if !session_wallet.is_signer {
        return Err(ProcessError::MissingRequiredSignature);
    }
    let derived = Position::pda(&session_wallet.key, position_id);
    if !matches_derived(&derived, &position.key) {
        return Err(ProcessError::Vault(MetatoolsError::InvalidPDA));
    }
    let p = match position.data {
        Some(p) => p,
        None => {
            return Err(ProcessError::Vault(MetatoolsError::PositionNotFound));
        },
    };
    if p.session_wallet != session_wallet.key {
        return Err(ProcessError::Vault(MetatoolsError::Unauthorized));
    }
    if p.status != PositionStatus::Open {
        return Err(ProcessError::Vault(MetatoolsError::InvalidPositionStatus));
    }
    Ok(p)
}

/// The first reason, if any, for which a position is not closed.
pub open spec fn close_position_error(
    session_wallet: Signer,
    vault: Record<VaultMetadata>,
    position: Record<Position>,
    args: ClosePosition,
) -> Option<ProcessError> {
    let p = position.data.unwrap();
    let v = vault.data.unwrap();
    if position_change_error(session_wallet, position, args.position_id) is Some {
        position_change_error(session_wallet, position, args.position_id)
    } else if !is_derived(vault_address(session_wallet.key@), vault.key@) {
        Some(ProcessError::Vault(MetatoolsError::InvalidPDA))
    } else if vault.data is None {
        Some(ProcessError::UninitializedAccount)
    } else if v.session_wallet@ != session_wallet.key@ {
        Some(ProcessError::Vault(MetatoolsError::Unauthorized))
    } else if v.status != VaultStatus::Active {
        Some(ProcessError::Vault(MetatoolsError::InvalidVaultStatus))
    } else if v.total_withdrawals + p.current_tvl > u64::MAX {
        Some(ProcessError::Vault(MetatoolsError::ArithmeticOverflow))
    } else {
        None
    }
}

/// `a - b`, or zero where `b` exceeds `a`.
pub open spec fn sat_sub(a: int, b: int) -> int {
    if a >= b {
        a - b
    } else {
        0
    }
}

/// The vault after position `p` was closed: one position fewer, and its current value
/// moved from the value locked to the withdrawals.
pub open spec fn vault_after_close(v: VaultMetadata, p: Position, now: i64) -> VaultMetadata {
    VaultMetadata {
        active_positions: sat_sub(v.active_positions as int, 1) as u32,
        total_value_locked: sat_sub(v.total_value_locked as int, p.current_tvl as int) as u64,
        total_withdrawals: (v.total_withdrawals + p.current_tvl) as u64,
        last_activity: now,
        ..v
    }
}

/// Closes an open position for good and takes it out of its vault's aggregates.
pub fn process_close_position(
    session_wallet: &Signer,
    vault: &mut Record<VaultMetadata>,
    position: &mut Record<Position>,
    args: &ClosePosition,
    now: i64,
) -> (r: Result<PositionClosedEvent, ProcessError>)
    ensures
        close_position_error(*session_wallet, *old(vault), *old(position), *args) matches Some(e)
            ==> r == Err::<PositionClosedEvent, ProcessError>(e) && *final(vault) == *old(vault)
            && *final(position) == *old(position),
        close_position_error(*session_wallet, *old(vault), *old(position), *args) is None ==> {
            let p = old(position).data.unwrap();
            let v = old(vault).data.unwrap();
            &&& r == Ok::<PositionClosedEvent, ProcessError>(
                PositionClosedEvent {
                    session_wallet: session_wallet.key,
                    position_id: args.position_id,
                    final_tvl: p.current_tvl,
                    total_fees_claimed: p.fees_claimed,
                    timestamp: now,
                },
            )
            &&& final(position).key == old(position).key
            &&& final(position).data == Some(Position { status: PositionStatus::Closed, ..p })
            &&& final(vault).key == old(vault).key
            &&& final(vault).data == Some(vault_after_close(v, p, now))
        },
{
    let p = match check_position(session_wallet, position, args.position_id) {
        Ok(p) => p,
        Err(e) => {
            return Err(e);
        },
    };
    let vault_derived = VaultMetadata::pda(&session_wallet.key);
    if !matches_derived(&vault_derived, &vault.key) {
        return Err(ProcessError::Vault(MetatoolsError::InvalidPDA));
    }
    let v = match vault.data {
        Some(v) => v,
        None => {
            return Err(ProcessError::UninitializedAccount);
        },
    };
    if v.session_wallet != session_wallet.key {
        return Err(ProcessError::Vault(MetatoolsError::Unauthorized));
    }
    if v.status != VaultStatus::Active {
        return Err(ProcessError::Vault(MetatoolsError::InvalidVaultStatus));
    }
    if v.total_withdrawals > u64::MAX - p.current_tvl {
        return Err(ProcessError::Vault(MetatoolsError::ArithmeticOverflow));
    }
    let active_positions: u32 = if v.active_positions > 0 {
        v.active_positions - 1
    } else {
        0
    };
    let total_value_locked: u64 = if v.total_value_locked >= p.current_tvl {
        v.total_value_locked - p.current_tvl
    } else {
        0
    };
    vault.data = Some(
        VaultMetadata {
            active_positions: active_positions,
            total_value_locked: total_value_locked,
            total_withdrawals: v.total_withdrawals + p.current_tvl,
            last_activity: now,
            ..v
        },
    );
    position.data = Some(Position { status: PositionStatus::Closed, ..p });
    Ok(
        PositionClosedEvent {
            session_wallet: session_wallet.key,
            position_id: args.position_id,
            final_tvl: p.current_tvl,
            total_fees_claimed: p.fees_claimed,
            timestamp: now,
        },
    )
}

/// The position after an update: the three values overwritten, rebalanced now.
pub open spec fn position_after_update(p: Position, args: UpdatePositionTVL, now: i64) -> Position {
    Position {
        current_tvl: args.new_tvl,
        fees_claimed: args.fees_claimed,
        total_compounded: args.total_compounded,
        last_rebalance: now,
        ..p
    }
}

/// Records the current value, claimed fees and compounded total of an open position.
/// Bookkeeping only: no value moves.
pub fn process_update_position_tvl(
    session_wallet: &Signer,
    position: &mut Record<Position>,
    args: &UpdatePositionTVL,
    now: i64,
) -> (r: Result<PositionUpdatedEvent, ProcessError>)
    ensures
        position_change_error(*session_wallet, *old(position), args.position_id) matches Some(e)
            ==> r == Err::<PositionUpdatedEvent, ProcessError>(e) && *final(position) == *old(
            position,
        ),
        position_change_error(*session_wallet, *old(position), args.position_id) is None ==> {
            &&& r == Ok::<PositionUpdatedEvent, ProcessError>(
                PositionUpdatedEvent {
                    session_wallet: session_wallet.key,
                    position_id: args.position_id,
                    new_tvl: args.new_tvl,
                    fees_claimed: args.fees_claimed,
                    timestamp: now,
                },
            )
            &&& final(position).key == old(position).key
            &&& final(position).data == Some(
                position_after_update(old(position).data.unwrap(), *args, now),
            )
        },
{
    let p = match check_position(session_wallet, position, args.position_id) {
        Ok(p) => p,
        Err(e) => {
            return Err(e);
        },
    };
    position.data = Some(
        Position {
            current_tvl: args.new_tvl,
            fees_claimed: args.fees_claimed,
            total_compounded: args.total_compounded,
            last_rebalance: now,
            ..p
        },
    );
    Ok(
        PositionUpdatedEvent {
            session_wallet: session_wallet.key,
            position_id: args.position_id,
            new_tvl: args.new_tvl,
            fees_claimed: args.fees_claimed,
            timestamp: now,
        },
    )
}

} // verus!
