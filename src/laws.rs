use vstd::prelude::*;
use crate::pubkey::Pubkey;
use crate::error::{MetatoolsError, ProcessError};
use crate::fee::{fee_of, lemma_share_bounds, lemma_shares_fit, percentages_valid, share_of};
use crate::address::{le_bytes, position_address, position_seeds};
use crate::state::{GlobalConfig, Position, PositionStatus, Record, Signer, VaultMetadata};
use crate::instruction::{
    close_position_body, create_vault_body, decodable, encodes, initialize_config_body,
    open_position_body, update_config_body, update_position_tvl_body, ClosePosition,
    CreateVault, InitializeConfig, MetatoolsCommand, OpenPosition, UpdateConfig,
    UpdatePositionTVL,
};
use crate::layout::{
    config_record, position_record, vault_record, CONFIG_RECORD_LEN, POSITION_RECORD_LEN,
    VAULT_RECORD_LEN,
};
use crate::config::{
    initialize_config_error, initialized_config, update_config_error, updated_config,
};
use crate::position::{
    close_position_error, fee_split, fee_transfers, open_position_error, transfers_total, opened_position, position_change_error,
    position_after_update, vault_after_close, vault_after_open,
};

verus! {

/// Every configuration that initialization or an update writes has percentages summing to
/// exactly 100, and a write whose percentages do not is refused, with
/// `InvalidFeePercentages` when the caller signed (the refused operation leaves the record
/// as it was, by the operations' own contracts).
pub proof fn lemma_config_writes_sum_to_whole(
    admin: Signer,
    config: Record<GlobalConfig>,
    init: InitializeConfig,
    update: UpdateConfig,
)
    ensures
        initialize_config_error(admin, config, init) is None ==> initialized_config(
            admin.key,
            init,
        ).wf(),
        !percentages_valid(init.referral_pct, init.buyback_pct, init.treasury_pct)
            ==> initialize_config_error(admin, config, init) is Some,
        admin.is_signer && !percentages_valid(init.referral_pct, init.buyback_pct, init.treasury_pct)
            ==> initialize_config_error(admin, config, init) == Some(
            ProcessError::Vault(MetatoolsError::InvalidFeePercentages),
        ),
        update_config_error(admin, config, update) is None ==> updated_config(
            config.data.unwrap(),
            update,
        ).wf(),
        !percentages_valid(update.new_referral_pct, update.new_buyback_pct, update.new_treasury_pct)
            ==> update_config_error(admin, config, update) is Some,
        admin.is_signer && !percentages_valid(
            update.new_referral_pct,
            update.new_buyback_pct,
            update.new_treasury_pct,
        ) ==> update_config_error(admin, config, update) == Some(
            ProcessError::Vault(MetatoolsError::InvalidFeePercentages),
        ),
{
}

/// Opening a position and then closing it gives the vault back its count of active
/// positions and its value locked, and moves the position's value to the withdrawals
/// (where they have room for it; else the close is refused).
pub proof fn lemma_open_then_close_restores_vault(
    session_wallet: Signer,
    vault: Record<VaultMetadata>,
    position: Record<Position>,
    config: Record<GlobalConfig>,
    args: OpenPosition,
    fee: int,
    opened_at: i64,
    closed_at: i64,
)
    requires
        open_position_error(session_wallet, vault, position, config, args) is None,
        fee == crate::position::open_fee(config.data.unwrap(), args.initial_tvl),
    ensures
        ({
            let v = vault.data.unwrap();
            let v1 = vault_after_open(v, fee, args.initial_tvl, opened_at);
            let p_open = opened_position(session_wallet.key, v, args, fee, opened_at);
            let v2 = vault_after_close(v1, p_open, closed_at);
            &&& v2.active_positions == v.active_positions
            &&& v2.total_value_locked == v.total_value_locked
            &&& v.total_withdrawals + args.initial_tvl <= u64::MAX ==> v2.total_withdrawals
                == v.total_withdrawals + args.initial_tvl
            &&& v2.next_position_id == v.next_position_id + 1
        }),
{
}

/// A closed position stays closed: once a close has gone through, closing the same position
/// again is refused with `InvalidPositionStatus`.
pub proof fn lemma_second_close_refused(
    session_wallet: Signer,
    vault: Record<VaultMetadata>,
    position: Record<Position>,
    args: ClosePosition,
    now: i64,
)
    requires
        close_position_error(session_wallet, vault, position, args) is None,
    ensures
        ({
            let p = position.data.unwrap();
            let closed = Record {
                key: position.key,
                data: Some(Position { status: PositionStatus::Closed, ..p }),
            };
            let v1 = Record {
                key: vault.key,
                data: Some(vault_after_close(vault.data.unwrap(), p, now)),
            };
            close_position_error(session_wallet, v1, closed, args) == Some(
                ProcessError::Vault(MetatoolsError::InvalidPositionStatus),
            )
        }),
{
}

/// Updating a closed position is refused with `InvalidPositionStatus` whenever the caller
/// signed, the address is the derived one and the position is the caller's.
pub proof fn lemma_update_closed_refused(
    session_wallet: Signer,
    position: Record<Position>,
    args: UpdatePositionTVL,
)
    requires
        session_wallet.is_signer,
        crate::address::is_derived(
            position_address(session_wallet.key@, args.position_id),
            position.key@,
        ),
        position.data matches Some(p) && p.session_wallet@ == session_wallet.key@ && p.status
            == PositionStatus::Closed,
    ensures
        position_change_error(session_wallet, position, args.position_id) == Some(
            ProcessError::Vault(MetatoolsError::InvalidPositionStatus),
        ),
{
}

/// While the program is paused, a signed open against the configuration record is refused
/// with `ProgramPaused`.
pub proof fn lemma_paused_refuses_open(
    session_wallet: Signer,
    vault: Record<VaultMetadata>,
    position: Record<Position>,
    config: Record<GlobalConfig>,
    args: OpenPosition,
)
    requires
        session_wallet.is_signer,
        crate::address::is_derived(crate::address::config_address(), config.key@),
        config.data matches Some(c) && c.paused,
    ensures
        open_position_error(session_wallet, vault, position, config, args) == Some(
            ProcessError::Vault(MetatoolsError::ProgramPaused),
        ),
{
}

/// The fee transfers of an open conserve value: they add up to exactly the fee, whatever
/// the split and whether or not a referrer is paid.
pub proof fn lemma_fee_transfers_conserve(
    payer: Pubkey,
    config: GlobalConfig,
    vault: VaultMetadata,
    fee: int,
)
    requires
        config.wf(),
        0 <= fee <= u64::MAX,
    ensures
        transfers_total(fee_transfers(payer, config, vault, fee)) == fee,
{
    lemma_share_bounds(fee, config.referral_percentage as int);
    lemma_share_bounds(fee, config.buyback_percentage as int);
    lemma_shares_fit(fee, config.referral_percentage as int, config.buyback_percentage as int);
    lemma_shares_fit(fee, 0, config.buyback_percentage as int);
    assert(share_of(fee, 0) == 0);
    let ts = fee_transfers(payer, config, vault, fee);
    let (referral, buyback, treasury) = fee_split(config, vault, fee);
    assert(0 <= referral <= fee && 0 <= buyback <= fee && 0 <= treasury <= fee);
    reveal_with_fuel(transfers_total, 4);
    if referral > 0 {
        assert(ts.drop_last().drop_last().drop_last().len() == 0);
        assert(ts.drop_last().drop_last().last() == ts[0]);
        assert(ts.drop_last().last() == ts[1]);
    } else {
        assert(ts.drop_last().drop_last().len() == 0);
        assert(ts.drop_last().last() == ts[0]);
    }
}

proof fn lemma_le_bytes_injective(x: u64, y: u64)
    requires
        le_bytes(x) == le_bytes(y),
    ensures
        x == y,
{
    assert(le_bytes(x)[0] == le_bytes(y)[0]);
    assert(le_bytes(x)[1] == le_bytes(y)[1]);
    assert(le_bytes(x)[2] == le_bytes(y)[2]);
    assert(le_bytes(x)[3] == le_bytes(y)[3]);
    assert(le_bytes(x)[4] == le_bytes(y)[4]);
    assert(le_bytes(x)[5] == le_bytes(y)[5]);
    assert(le_bytes(x)[6] == le_bytes(y)[6]);
    assert(le_bytes(x)[7] == le_bytes(y)[7]);
    assert(x == y) by (bit_vector)
        requires
            (x & 0xff) as u8 == (y & 0xff) as u8,
            ((x >> 8u64) & 0xff) as u8 == ((y >> 8u64) & 0xff) as u8,
            ((x >> 16u64) & 0xff) as u8 == ((y >> 16u64) & 0xff) as u8,
            ((x >> 24u64) & 0xff) as u8 == ((y >> 24u64) & 0xff) as u8,
            ((x >> 32u64) & 0xff) as u8 == ((y >> 32u64) & 0xff) as u8,
            ((x >> 40u64) & 0xff) as u8 == ((y >> 40u64) & 0xff) as u8,
            ((x >> 48u64) & 0xff) as u8 == ((y >> 48u64) & 0xff) as u8,
            ((x >> 56u64) & 0xff) as u8 == ((y >> 56u64) & 0xff) as u8,
    ;
}

/// Position addresses are derived deterministically: the same owner and id always give the
/// same derivation. And the seeds of two different (owner, id) keys always differ, so any
/// two such keys reach the derivation with different inputs.
pub proof fn lemma_position_address_deterministic(
    owner_a: Pubkey,
    id_a: u64,
    owner_b: Pubkey,
    id_b: u64,
)
    ensures
        owner_a@ == owner_b@ && id_a == id_b ==> position_address(owner_a@, id_a)
            == position_address(owner_b@, id_b),
        owner_a@ != owner_b@ || id_a != id_b ==> position_seeds(owner_a@, id_a) != position_seeds(
            owner_b@,
            id_b,
        ),
{
    if position_seeds(owner_a@, id_a) == position_seeds(owner_b@, id_b) {
        assert(position_seeds(owner_a@, id_a)[1] == position_seeds(owner_b@, id_b)[1]);
        assert(position_seeds(owner_a@, id_a)[2] == position_seeds(owner_b@, id_b)[2]);
        lemma_le_bytes_injective(id_a, id_b);
    }
}

/// Every encoded instruction decodes, to the command it was encoded from.
pub proof fn lemma_instructions_round_trip(
    init: InitializeConfig,
    create: CreateVault,
    open: OpenPosition,
    close: ClosePosition,
    update: UpdatePositionTVL,
    config: UpdateConfig,
)
    ensures
        decodable(seq![0u8] + initialize_config_body(init)) && encodes(
            MetatoolsCommand::InitializeConfig(init),
            seq![0u8] + initialize_config_body(init),
        ),
        decodable(seq![1u8] + create_vault_body(create)) && encodes(
            MetatoolsCommand::CreateVault(create),
            seq![1u8] + create_vault_body(create),
        ),
        decodable(seq![3u8] + open_position_body(open)) && encodes(
            MetatoolsCommand::OpenPosition(open),
            seq![3u8] + open_position_body(open),
        ),
        decodable(seq![4u8] + close_position_body(close)) && encodes(
            MetatoolsCommand::ClosePosition(close),
            seq![4u8] + close_position_body(close),
        ),
        decodable(seq![5u8] + update_position_tvl_body(update)) && encodes(
            MetatoolsCommand::UpdatePositionTVL(update),
            seq![5u8] + update_position_tvl_body(update),
        ),
        decodable(seq![6u8] + update_config_body(config)) && encodes(
            MetatoolsCommand::UpdateConfig(config),
            seq![6u8] + update_config_body(config),
        ),
{
    assert((seq![0u8] + initialize_config_body(init)).drop_first() =~= initialize_config_body(init));
    assert((seq![1u8] + create_vault_body(create)).drop_first() =~= create_vault_body(create));
    assert((seq![3u8] + open_position_body(open)).drop_first() =~= open_position_body(open));
    assert((seq![4u8] + close_position_body(close)).drop_first() =~= close_position_body(close));
    assert((seq![5u8] + update_position_tvl_body(update)).drop_first() =~= update_position_tvl_body(
        update,
    ));
    assert((seq![6u8] + update_config_body(config)).drop_first() =~= update_config_body(config));
}

/// Every stored record is accepted by its reader: it has the record's size, its kind byte
/// and a known status.
pub proof fn lemma_records_read_back(c: GlobalConfig, v: VaultMetadata, p: Position)
    ensures
        config_record(c).len() == CONFIG_RECORD_LEN && config_record(c)[0] == 2,
        vault_record(v).len() == VAULT_RECORD_LEN && vault_record(v)[0] == 0 && vault_record(
            v,
        )[164] <= 2,
        position_record(p).len() == POSITION_RECORD_LEN && position_record(p)[0] == 1
            && position_record(p)[202] <= 1,
{
}

/// How many of `positions` are open.
pub open spec fn open_count(positions: Seq<Position>) -> nat
    decreases positions.len(),
{
    if positions.len() == 0 {
        0
    } else {
        open_count(positions.drop_last()) + if positions.last().status == PositionStatus::Open {
            1nat
        } else {
            0nat
        }
    }
}

pub open spec fn open_one(p: Position) -> int {
    if p.status == PositionStatus::Open {
        1
    } else {
        0
    }
}

proof fn lemma_open_count_push(positions: Seq<Position>, p: Position)
    ensures
        open_count(positions.push(p)) == open_count(positions) + open_one(p),
{
    assert(positions.push(p).drop_last() =~= positions);
}

proof fn lemma_open_count_update(positions: Seq<Position>, i: int, q: Position)
    requires
        0 <= i < positions.len(),
    ensures
        open_count(positions.update(i, q)) == open_count(positions) - open_one(positions[i])
            + open_one(q),
    decreases positions.len(),
{
    let updated = positions.update(i, q);
    if i == positions.len() - 1 {
        assert(updated.drop_last() =~= positions.drop_last());
    } else {
        assert(updated.drop_last() =~= positions.drop_last().update(i, q));
        lemma_open_count_update(positions.drop_last(), i, q);
    }
}

/// A vault counts exactly its open positions, and every operation keeps it so. Here
/// `positions` are the vault's positions in order of id; where the vault's count of active
/// positions equals the number of them that are open before an open, a close or an update,
/// it does after it too.
pub proof fn lemma_active_count_tracks_open_positions(
    session_wallet: Signer,
    vault: Record<VaultMetadata>,
    new_position: Record<Position>,
    config: Record<GlobalConfig>,
    args: OpenPosition,
    positions: Seq<Position>,
    i: int,
    update: UpdatePositionTVL,
    now: i64,
)
    requires
        vault.data matches Some(v) && v.active_positions == open_count(positions),
    ensures
        open_position_error(session_wallet, vault, new_position, config, args) is None ==> {
            let v = vault.data.unwrap();
            let fee = crate::position::open_fee(config.data.unwrap(), args.initial_tvl);
            vault_after_open(v, fee, args.initial_tvl, now).active_positions == open_count(
                positions.push(opened_position(session_wallet.key, v, args, fee, now)),
            )
        },
        0 <= i < positions.len() && positions[i].status == PositionStatus::Open ==> vault_after_close(
            vault.data.unwrap(),
            positions[i],
            now,
        ).active_positions == open_count(
            positions.update(i, Position { status: PositionStatus::Closed, ..positions[i] }),
        ),
        0 <= i < positions.len() ==> open_count(
            positions.update(i, position_after_update(positions[i], update, now)),
        ) == open_count(positions),
{
    let v = vault.data.unwrap();
    let fee = crate::position::open_fee(config.data.unwrap(), args.initial_tvl);
    lemma_open_count_push(positions, opened_position(session_wallet.key, v, args, fee, now));
    if 0 <= i < positions.len() {
        lemma_open_count_update(
            positions,
            i,
            Position { status: PositionStatus::Closed, ..positions[i] },
        );
        lemma_open_count_update(positions, i, position_after_update(positions[i], update, now));
    }
}

/// Under the default configuration (70 basis points, shares 10/45/45), a successful open
/// of 1,000,000 in a vault with a referrer charges exactly 7000, paid as 700 to the
/// referrer, 3150 to buyback and 3150 to the treasury; the position records the 7000 and
/// the vault counts one more position, one more id and 1,000,000 more value locked.
pub proof fn lemma_default_open_of_one_million(
    session_wallet: Signer,
    vault: Record<VaultMetadata>,
    position: Record<Position>,
    config: Record<GlobalConfig>,
    args: OpenPosition,
    now: i64,
)
    requires
        open_position_error(session_wallet, vault, position, config, args) is None,
        config.data matches Some(c) && c.fee_bps == 70 && c.referral_percentage == 10
            && c.buyback_percentage == 45 && c.treasury_percentage == 45,
        vault.data matches Some(v) && !v.referrer.is_zero_spec(),
        args.initial_tvl == 1_000_000,
    ensures
        ({
            let c = config.data.unwrap();
            let v = vault.data.unwrap();
            let fee = crate::position::open_fee(c, args.initial_tvl);
            let v1 = vault_after_open(v, fee, args.initial_tvl, now);
            &&& fee == 7000
            &&& fee_transfers(session_wallet.key, c, v, fee) == seq![
                crate::event::Transfer { from: session_wallet.key, to: v.referrer, lamports: 700 },
                crate::event::Transfer {
                    from: session_wallet.key,
                    to: c.buyback_wallet,
                    lamports: 3150,
                },
                crate::event::Transfer { from: session_wallet.key, to: c.treasury, lamports: 3150 },
            ]
            &&& opened_position(session_wallet.key, v, args, fee, now).fee_paid == 7000
            &&& v1.active_positions == v.active_positions + 1
            &&& v1.next_position_id == v.next_position_id + 1
            &&& v1.total_value_locked == v.total_value_locked + 1_000_000
        }),
{
    let c = config.data.unwrap();
    let v = vault.data.unwrap();
    assert(fee_of(1_000_000, 70) == 7000);
    assert(share_of(7000, 10) == 700);
    assert(share_of(7000, 45) == 3150);
    let ts = fee_transfers(session_wallet.key, c, v, 7000);
    assert(ts =~= seq![
        crate::event::Transfer { from: session_wallet.key, to: v.referrer, lamports: 700 },
        crate::event::Transfer { from: session_wallet.key, to: c.buyback_wallet, lamports: 3150 },
        crate::event::Transfer { from: session_wallet.key, to: c.treasury, lamports: 3150 },
    ]);
}

} // verus!
