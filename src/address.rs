use vstd::prelude::*;
use crate::pubkey::Pubkey;

verus! {

/// The program's own identity, `z7msBPQHDJjTvdQRoEcKyENgXDhSRYeHieN1ZMTqo35`.
pub open spec fn program_id_spec() -> Seq<u8> {
    seq![
        14u8, 161, 195, 213, 189, 197, 225, 57, 73, 73, 0, 162, 188, 36, 22, 90,
        199, 90, 176, 34, 202, 240, 163, 150, 83, 155, 144, 232, 92, 16, 155, 144,
    ]
}

pub fn program_id() -> (r: Pubkey)
    ensures
        r@ == program_id_spec(),
{
    let r = Pubkey {
        bytes: [
            14u8, 161, 195, 213, 189, 197, 225, 57, 73, 73, 0, 162, 188, 36, 22, 90,
            199, 90, 176, 34, 202, 240, 163, 150, 83, 155, 144, 232, 92, 16, 155, 144,
        ],
    };
    assert(r@ =~= program_id_spec());
    r
}

/// The program-derived address (and its bump) for `seeds` under `program_id`, or `None`
/// where no bump gives an address off the curve or the seeds are out of bounds.
pub uninterp spec fn program_address(seeds: Seq<Seq<u8>>, program_id: Seq<u8>) -> Option<
    (Seq<u8>, u8),
>;

/// The view of a derived address as plain values.
pub open spec fn derived_view(r: Option<(Pubkey, u8)>) -> Option<(Seq<u8>, u8)> {
    match r {
        Some((k, b)) => Some((k@, b)),
        None => None,
    }
}

pub open spec fn seeds_view(seeds: Seq<Vec<u8>>) -> Seq<Seq<u8>> {
    seeds.map_values(|s: Vec<u8>| s@)
}

/// Relies on `Pubkey::try_find_program_address` of solana-pubkey: the derived address
/// depends on the seeds and the program id alone.
#[verifier::external_body]
fn try_find_program_address(seeds: &Vec<Vec<u8>>, program_id: &Pubkey) -> (r: Option<
    (Pubkey, u8),
>)
    ensures
        derived_view(r) == program_address(seeds_view(seeds@), program_id@),
{
    let slices: Vec<&[u8]> = seeds.iter().map(|s| s.as_slice()).collect();
    let id = solana_program::pubkey::Pubkey::new_from_array(program_id.bytes);
    solana_program::pubkey::Pubkey::try_find_program_address(&slices, &id).map(
        |(k, b)| (Pubkey { bytes: k.to_bytes() }, b),
    )
}

/// The eight little-endian bytes of `x`.
pub open spec fn le_bytes(x: u64) -> Seq<u8> {
    seq![
        (x & 0xff) as u8,
        ((x >> 8u64) & 0xff) as u8,
        ((x >> 16u64) & 0xff) as u8,
        ((x >> 24u64) & 0xff) as u8,
        ((x >> 32u64) & 0xff) as u8,
        ((x >> 40u64) & 0xff) as u8,
        ((x >> 48u64) & 0xff) as u8,
        ((x >> 56u64) & 0xff) as u8,
    ]
}

pub fn u64_to_le_bytes(x: u64) -> (r: Vec<u8>)
    ensures
        r@ == le_bytes(x),
{
    let r = vec![
        (x & 0xff) as u8,
        ((x >> 8u64) & 0xff) as u8,
        ((x >> 16u64) & 0xff) as u8,
        ((x >> 24u64) & 0xff) as u8,
        ((x >> 32u64) & 0xff) as u8,
        ((x >> 40u64) & 0xff) as u8,
        ((x >> 48u64) & 0xff) as u8,
        ((x >> 56u64) & 0xff) as u8,
    ];
    assert(r@ =~= le_bytes(x));
    r
}

/// `"config"`
pub open spec fn config_tag() -> Seq<u8> {
    seq![99u8, 111, 110, 102, 105, 103]
}

/// `"vault_metadata"`
pub open spec fn vault_tag() -> Seq<u8> {
    seq![118u8, 97, 117, 108, 116, 95, 109, 101, 116, 97, 100, 97, 116, 97]
}

/// `"position"`
pub open spec fn position_tag() -> Seq<u8> {
    seq![112u8, 111, 115, 105, 116, 105, 111, 110]
}

pub open spec fn config_seeds() -> Seq<Seq<u8>> {
    seq![config_tag()]
}

pub open spec fn vault_seeds(session_wallet: Seq<u8>) -> Seq<Seq<u8>> {
    seq![vault_tag(), session_wallet]
}

pub open spec fn position_seeds(session_wallet: Seq<u8>, position_id: u64) -> Seq<Seq<u8>> {
    seq![position_tag(), session_wallet, le_bytes(position_id)]
}

/// Where the single configuration record lives.
pub open spec fn config_address() -> Option<(Seq<u8>, u8)> {
    program_address(config_seeds(), program_id_spec())
}

/// Where the vault record of `session_wallet` lives.
pub open spec fn vault_address(session_wallet: Seq<u8>) -> Option<(Seq<u8>, u8)> {
    program_address(vault_seeds(session_wallet), program_id_spec())
}

/// Where position `position_id` of `session_wallet` lives.
pub open spec fn position_address(session_wallet: Seq<u8>, position_id: u64) -> Option<
    (Seq<u8>, u8),
> {
    program_address(position_seeds(session_wallet, position_id), program_id_spec())
}

/// Whether `key` is the address derived for `derived`.
pub open spec fn is_derived(derived: Option<(Seq<u8>, u8)>, key: Seq<u8>) -> bool {
    derived matches Some((k, _)) && k == key
}

/// The seeds of the configuration record.
pub fn config_seed_list() -> (r: Vec<Vec<u8>>)
    ensures
        seeds_view(r@) == config_seeds(),
{
    let seeds: Vec<Vec<u8>> = vec![vec![99u8, 111, 110, 102, 105, 103]];
    proof {
        assert(seeds_view(seeds@) =~= config_seeds());
    }
    seeds
}

/// The seeds of the vault record of `session_wallet`.
pub fn vault_seed_list(session_wallet: &Pubkey) -> (r: Vec<Vec<u8>>)
    ensures
        seeds_view(r@) == vault_seeds(session_wallet@),
{
    let tag: Vec<u8> = vec![118u8, 97, 117, 108, 116, 95, 109, 101, 116, 97, 100, 97, 116, 97];
    let wallet: Vec<u8> = session_wallet.to_bytes_vec();
    let seeds: Vec<Vec<u8>> = vec![tag, wallet];
    proof {
        assert(seeds@[0]@ =~= vault_tag());
        assert(seeds_view(seeds@) =~= vault_seeds(session_wallet@));
    }
    seeds
}

/// The seeds of position `position_id` of `session_wallet`.
pub fn position_seed_list(session_wallet: &Pubkey, position_id: u64) -> (r: Vec<Vec<u8>>)
    ensures
        seeds_view(r@) == position_seeds(session_wallet@, position_id),
{
    let tag: Vec<u8> = vec![112u8, 111, 115, 105, 116, 105, 111, 110];
    let wallet: Vec<u8> = session_wallet.to_bytes_vec();
    let id_bytes = u64_to_le_bytes(position_id);
    let seeds: Vec<Vec<u8>> = vec![tag, wallet, id_bytes];
    proof {
        assert(seeds@[0]@ =~= position_tag());
        assert(seeds_view(seeds@) =~= position_seeds(session_wallet@, position_id));
    }
    seeds
}

pub fn derive_config_address() -> (r: Option<(Pubkey, u8)>)
    ensures
        derived_view(r) == config_address(),
{
    try_find_program_address(&config_seed_list(), &program_id())
}

pub fn derive_vault_address(session_wallet: &Pubkey) -> (r: Option<(Pubkey, u8)>)
    ensures
        derived_view(r) == vault_address(session_wallet@),
{
    try_find_program_address(&vault_seed_list(session_wallet), &program_id())
}

pub fn derive_position_address(session_wallet: &Pubkey, position_id: u64) -> (r: Option<
    (Pubkey, u8),
>)
    ensures
        derived_view(r) == position_address(session_wallet@, position_id),
{
    try_find_program_address(&position_seed_list(session_wallet, position_id), &program_id())
}

/// Checks that `key` is the address derived for a derivation result.
pub fn matches_derived(derived: &Option<(Pubkey, u8)>, key: &Pubkey) -> (r: bool)
    ensures
        r == is_derived(derived_view(*derived), key@),
{
    match derived {
        Some((k, _)) => *k == *key,
        None => false,
    }
}

} // verus!
