use metatools_vault::address::program_id;
use metatools_vault::pubkey::Pubkey;
use metatools_vault::state::{GlobalConfig, Position, VaultMetadata};

fn key(n: u8) -> Pubkey {
    Pubkey { bytes: [n; 32] }
}

#[test]
fn position_address_is_deterministic() {
    let a = Position::pda(&key(4), 7).unwrap();
    let b = Position::pda(&key(4), 7).unwrap();
    assert_eq!(a, b);
}

#[test]
fn position_address_differs_by_seed() {
    let a = Position::pda(&key(4), 7).unwrap().0;
    assert_ne!(a, Position::pda(&key(4), 8).unwrap().0);
    assert_ne!(a, Position::pda(&key(5), 7).unwrap().0);
}

#[test]
fn derived_addresses_are_not_their_seeds() {
    let w = key(4);
    let v = VaultMetadata::pda(&w).unwrap().0;
    assert_ne!(v, w);
    assert_ne!(v, program_id());
    assert_ne!(GlobalConfig::pda().unwrap().0, VaultMetadata::pda(&w).unwrap().0);
}

#[test]
fn program_id_bytes() {
    let id = program_id();
    assert_eq!(id.bytes[0], 14);
    assert_eq!(id.bytes[31], 144);
}

#[test]
fn zero_key_is_zero() {
    assert!(Pubkey::zeroed().is_zero());
    assert!(!key(1).is_zero());
    let mut k = Pubkey::zeroed();
    k.bytes[31] = 1;
    assert!(!k.is_zero());
    assert_eq!(key(3).to_bytes_vec(), vec![3u8; 32]);
}
