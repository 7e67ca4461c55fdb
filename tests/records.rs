use metatools_vault::layout::{CONFIG_RECORD_LEN, POSITION_RECORD_LEN, VAULT_RECORD_LEN};
use metatools_vault::pubkey::Pubkey;
use metatools_vault::state::{GlobalConfig, Position, PositionStatus, VaultMetadata, VaultStatus};

fn key(n: u8) -> Pubkey {
    Pubkey { bytes: [n; 32] }
}

fn sample_vault() -> VaultMetadata {
    VaultMetadata {
        session_wallet: key(1),
        main_wallet: key(2),
        referrer: key(3),
        total_value_locked: 10,
        total_deposits: 11,
        total_withdrawals: 12,
        total_fees_paid: 13,
        next_position_id: 14,
        created_at: -5,
        last_activity: i64::MAX,
        active_positions: 0x0102_0304,
        status: VaultStatus::Paused,
    }
}

fn sample_position() -> Position {
    Position {
        session_wallet: key(1),
        pool: key(2),
        base_mint: key(3),
        quote_mint: key(4),
        position_id: 5,
        initial_tvl: 6,
        current_tvl: 7,
        fee_paid: 8,
        fees_claimed: 9,
        total_compounded: 10,
        opened_at: i64::MIN,
        last_rebalance: 12,
        protocol: 3,
        strategy: 5,
        status: PositionStatus::Closed,
    }
}

#[test]
fn config_record_round_trip() {
    let c = GlobalConfig {
        admin: key(1),
        treasury: key(2),
        buyback_wallet: key(3),
        fee_bps: 70,
        referral_percentage: 10,
        buyback_percentage: 45,
        treasury_percentage: 45,
        paused: true,
    };
    let b = c.to_record_bytes();
    assert_eq!(b.len(), CONFIG_RECORD_LEN);
    assert_eq!(b[0], 2);
    assert_eq!(&b[104..110], &[70, 0, 10, 45, 45, 1]);
    let d = GlobalConfig::from_record_bytes(&b).unwrap();
    assert_eq!((d.admin, d.treasury, d.buyback_wallet), (key(1), key(2), key(3)));
    assert_eq!((d.fee_bps, d.referral_percentage, d.buyback_percentage, d.treasury_percentage), (70, 10, 45, 45));
    assert!(d.paused);
}

#[test]
fn vault_record_round_trip() {
    let v = sample_vault();
    let b = v.to_record_bytes();
    assert_eq!(b.len(), VAULT_RECORD_LEN);
    assert_eq!(&b[160..165], &[4, 3, 2, 1, 1]);
    let d = VaultMetadata::from_record_bytes(&b).unwrap();
    assert_eq!((d.session_wallet, d.main_wallet, d.referrer), (key(1), key(2), key(3)));
    assert_eq!(
        (d.total_value_locked, d.total_deposits, d.total_withdrawals, d.total_fees_paid, d.next_position_id),
        (10, 11, 12, 13, 14)
    );
    assert_eq!((d.created_at, d.last_activity), (-5, i64::MAX));
    assert_eq!(d.active_positions, 0x0102_0304);
    assert_eq!(d.status, VaultStatus::Paused);
}

#[test]
fn position_record_round_trip() {
    let p = sample_position();
    let b = p.to_record_bytes();
    assert_eq!(b.len(), POSITION_RECORD_LEN);
    let d = Position::from_record_bytes(&b).unwrap();
    assert_eq!((d.session_wallet, d.pool, d.base_mint, d.quote_mint), (key(1), key(2), key(3), key(4)));
    assert_eq!(
        (d.position_id, d.initial_tvl, d.current_tvl, d.fee_paid, d.fees_claimed, d.total_compounded),
        (5, 6, 7, 8, 9, 10)
    );
    assert_eq!((d.opened_at, d.last_rebalance), (i64::MIN, 12));
    assert_eq!((d.protocol, d.strategy), (3, 5));
    assert_eq!(d.status, PositionStatus::Closed);
}

#[test]
fn records_of_wrong_kind_or_size_are_refused() {
    let v = sample_vault().to_record_bytes();
    assert!(Position::from_record_bytes(&v).is_none());
    assert!(GlobalConfig::from_record_bytes(&v).is_none());
    let mut bad_status = v.clone();
    bad_status[164] = 3;
    assert!(VaultMetadata::from_record_bytes(&bad_status).is_none());
    let mut wrong_kind = sample_position().to_record_bytes();
    wrong_kind[0] = 0;
    assert!(Position::from_record_bytes(&wrong_kind).is_none());
    assert!(VaultMetadata::from_record_bytes(&v[..v.len() - 1]).is_none());
}
