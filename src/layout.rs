use vstd::prelude::*;
use crate::address::le_bytes;
use crate::bytes::{le16, push_key, push_u16, push_u64, push_zeros, read_key, read_u16, read_u64};
use crate::instruction::zeros;
use crate::state::{GlobalConfig, Position, PositionStatus, VaultMetadata, VaultStatus};

verus! {

// Each record is stored behind an eight-byte header whose first byte names its kind
// (vault 0, position 1, configuration 2). Fields follow in declaration order, little-endian,
// with alignment padding and a reserved tail kept zero for fields to come.

pub const CONFIG_RECORD_LEN: usize = 238;

pub const VAULT_RECORD_LEN: usize = 296;

pub const POSITION_RECORD_LEN: usize = 272;

pub open spec fn header(kind: u8) -> Seq<u8> {
    seq![kind] + zeros(7)
}

pub open spec fn flag_byte(b: bool) -> u8 {
    if b {
        1
    } else {
        0
    }
}

pub open spec fn vault_status_byte(s: VaultStatus) -> u8 {
    match s {
        VaultStatus::Active => 0,
        VaultStatus::Paused => 1,
        VaultStatus::Closed => 2,
    }
}

pub open spec fn position_status_byte(s: PositionStatus) -> u8 {
    match s {
        PositionStatus::Open => 0,
        PositionStatus::Closed => 1,
    }
}

/// The stored bytes of a configuration.
pub open spec fn config_record(c: GlobalConfig) -> Seq<u8> {
    header(2) + c.admin@ + c.treasury@ + c.buyback_wallet@ + le16(c.fee_bps) + seq![
        c.referral_percentage,
        c.buyback_percentage,
        c.treasury_percentage,
        flag_byte(c.paused),
    ] + zeros(128)
}

/// The stored bytes of a vault.
pub open spec fn vault_record(v: VaultMetadata) -> Seq<u8> {
    header(0) + v.session_wallet@ + v.main_wallet@ + v.referrer@
        + le_bytes(v.total_value_locked) + le_bytes(v.total_deposits)
        + le_bytes(v.total_withdrawals) + le_bytes(v.total_fees_paid)
        + le_bytes(v.next_position_id) + le_bytes(i64_bits(v.created_at))
        + le_bytes(i64_bits(v.last_activity)) + le_bytes(v.active_positions as u64).subrange(0, 4)
        + seq![vault_status_byte(v.status)] + zeros(3) + zeros(128)
}

/// The stored bytes of a position.
pub open spec fn position_record(p: Position) -> Seq<u8> {
    header(1) + p.session_wallet@ + p.pool@ + p.base_mint@ + p.quote_mint@
        + le_bytes(p.position_id) + le_bytes(p.initial_tvl) + le_bytes(p.current_tvl)
        + le_bytes(p.fee_paid) + le_bytes(p.fees_claimed) + le_bytes(p.total_compounded)
        + le_bytes(i64_bits(p.opened_at)) + le_bytes(i64_bits(p.last_rebalance))
        + seq![p.protocol, p.strategy, position_status_byte(p.status)] + zeros(5) + zeros(64)
}

fn push_header(out: &mut Vec<u8>, kind: u8)
    ensures
        final(out)@ == old(out)@ + header(kind),
{
    out.push(kind);
    push_zeros(out, 7);
    assert(final(out)@ =~= old(out)@ + header(kind));
}

fn push_u32(out: &mut Vec<u8>, x: u32)
    ensures
        final(out)@ == old(out)@ + le_bytes(x as u64).subrange(0, 4),
{
    let w = x as u64;
    out.push((w & 0xff) as u8);
    out.push(((w >> 8u64) & 0xff) as u8);
    out.push(((w >> 16u64) & 0xff) as u8);
    out.push(((w >> 24u64) & 0xff) as u8);
    assert(final(out)@ =~= old(out)@ + le_bytes(x as u64).subrange(0, 4));
}

fn read_u32(data: &[u8], off: usize) -> (r: u32)
    requires
        off + 4 <= data@.len(),
    ensures
        le_bytes(r as u64).subrange(0, 4) == data@.subrange(off as int, off + 4),
{
    let b0 = data[off];
    let b1 = data[off + 1];
    let b2 = data[off + 2];
    let b3 = data[off + 3];
    let r: u32 = (b0 as u32) | ((b1 as u32) << 8u32) | ((b2 as u32) << 16u32) | ((b3 as u32)
        << 24u32);
    let w: u64 = r as u64;
    assert((w & 0xff) as u8 == b0 && ((w >> 8u64) & 0xff) as u8 == b1 && ((w >> 16u64) & 0xff)
        as u8 == b2 && ((w >> 24u64) & 0xff) as u8 == b3) by (bit_vector)
        requires
            r == (b0 as u32) | ((b1 as u32) << 8u32) | ((b2 as u32) << 16u32) | ((b3 as u32)
                << 24u32),
            w == r as u64,
    ;
    assert(le_bytes(r as u64).subrange(0, 4) =~= data@.subrange(off as int, off + 4));
    r
}

/// The two's-complement bits of `x`.
pub open spec fn i64_bits(x: i64) -> u64 {
    if x >= 0 {
        x as u64
    } else {
        (x + 0x1_0000_0000_0000_0000) as u64
    }
}

fn to_bits(x: i64) -> (r: u64)
    ensures
        r == i64_bits(x),
{
    if x >= 0 {
        x as u64
    } else {
        let shifted: i64 = x + i64::MAX + 1;
        shifted as u64 + 0x8000_0000_0000_0000u64
    }
}

/// The `i64` whose two's-complement bits are `x`.
fn as_signed(x: u64) -> (r: i64)
    ensures
        i64_bits(r) == x,
{
    if x <= i64::MAX as u64 {
        x as i64
    } else {
        (x - 0x8000_0000_0000_0000u64) as i64 - i64::MAX - 1
    }
}

impl GlobalConfig {
    /// The configuration as stored.
    pub fn to_record_bytes(&self) -> (r: Vec<u8>)
        ensures
            r@ == config_record(*self),
            r@.len() == CONFIG_RECORD_LEN,
    {
        let mut out: Vec<u8> = Vec::new();
        push_header(&mut out, 2);
        push_key(&mut out, &self.admin);
        push_key(&mut out, &self.treasury);
        push_key(&mut out, &self.buyback_wallet);
        push_u16(&mut out, self.fee_bps);
        out.push(self.referral_percentage);
        out.push(self.buyback_percentage);
        out.push(self.treasury_percentage);
        out.push(if self.paused { 1u8 } else { 0u8 });
        push_zeros(&mut out, 128);
        assert(out@ =~= config_record(*self));
        out
    }

    /// Reads a stored configuration; `None` unless `data` has the configuration's size and
    /// kind byte. Any nonzero pause byte reads as paused.
    pub fn from_record_bytes(data: &[u8]) -> (r: Option<GlobalConfig>)
        ensures
            r is Some <==> data@.len() == CONFIG_RECORD_LEN && data@[0] == 2,
            r matches Some(c) ==> data@.subrange(8, 109) == config_record(c).subrange(8, 109)
                && c.paused == (data@[109] != 0),
    {
        if data.len() != CONFIG_RECORD_LEN || data[0] != 2 {
            return None;
        }
        let c = GlobalConfig {
            admin: read_key(data, 8),
            treasury: read_key(data, 40),
            buyback_wallet: read_key(data, 72),
            fee_bps: read_u16(data, 104),
            referral_percentage: data[106],
            buyback_percentage: data[107],
            treasury_percentage: data[108],
            paused: data[109] != 0,
        };
        assert(data@.subrange(8, 109) =~= config_record(c).subrange(8, 109));
        Some(c)
    }
}

impl VaultMetadata {
    /// The vault as stored.
    pub fn to_record_bytes(&self) -> (r: Vec<u8>)
        ensures
            r@ == vault_record(*self),
            r@.len() == VAULT_RECORD_LEN,
    {
        let mut out: Vec<u8> = Vec::new();
        push_header(&mut out, 0);
        push_key(&mut out, &self.session_wallet);
        push_key(&mut out, &self.main_wallet);
        push_key(&mut out, &self.referrer);
        push_u64(&mut out, self.total_value_locked);
        push_u64(&mut out, self.total_deposits);
        push_u64(&mut out, self.total_withdrawals);
        push_u64(&mut out, self.total_fees_paid);
        push_u64(&mut out, self.next_position_id);
        push_u64(&mut out, to_bits(self.created_at));
        push_u64(&mut out, to_bits(self.last_activity));
        push_u32(&mut out, self.active_positions);
        out.push(
            match self.status {
                VaultStatus::Active => 0u8,
                VaultStatus::Paused => 1u8,
                VaultStatus::Closed => 2u8,
            },
        );
        push_zeros(&mut out, 3);
        push_zeros(&mut out, 128);
        assert(out@ =~= vault_record(*self));
        out
    }

    /// Reads a stored vault; `None` unless `data` has the vault's size and kind byte and a
    /// known status.
    pub fn from_record_bytes(data: &[u8]) -> (r: Option<VaultMetadata>)
        ensures
            r is Some <==> data@.len() == VAULT_RECORD_LEN && data@[0] == 0 && data@[164] <= 2,
            r matches Some(v) ==> data@.subrange(8, 165) == vault_record(v).subrange(8, 165),
    {
        if data.len() != VAULT_RECORD_LEN || data[0] != 0 || data[164] > 2 {
            return None;
        }
        let status = if data[164] == 0 {
            VaultStatus::Active
        } else if data[164] == 1 {
            VaultStatus::Paused
        } else {
            VaultStatus::Closed
        };
        let created_at = read_u64(data, 144);
        let last_activity = read_u64(data, 152);
        let v = VaultMetadata {
            session_wallet: read_key(data, 8),
            main_wallet: read_key(data, 40),
            referrer: read_key(data, 72),
            total_value_locked: read_u64(data, 104),
            total_deposits: read_u64(data, 112),
            total_withdrawals: read_u64(data, 120),
            total_fees_paid: read_u64(data, 128),
            next_position_id: read_u64(data, 136),
            created_at: as_signed(created_at),
            last_activity: as_signed(last_activity),
            active_positions: read_u32(data, 160),
            status: status,
        };
        assert(data@.subrange(8, 165) =~= vault_record(v).subrange(8, 165));
        Some(v)
    }
}

impl Position {
    /// The position as stored.
    pub fn to_record_bytes(&self) -> (r: Vec<u8>)
        ensures
            r@ == position_record(*self),
            r@.len() == POSITION_RECORD_LEN,
    {
        let mut out: Vec<u8> = Vec::new();
        push_header(&mut out, 1);
        push_key(&mut out, &self.session_wallet);
        push_key(&mut out, &self.pool);
        push_key(&mut out, &self.base_mint);
        push_key(&mut out, &self.quote_mint);
        push_u64(&mut out, self.position_id);
        push_u64(&mut out, self.initial_tvl);
        push_u64(&mut out, self.current_tvl);
        push_u64(&mut out, self.fee_paid);
        push_u64(&mut out, self.fees_claimed);
        push_u64(&mut out, self.total_compounded);
        push_u64(&mut out, to_bits(self.opened_at));
        push_u64(&mut out, to_bits(self.last_rebalance));
        out.push(self.protocol);
        out.push(self.strategy);
        out.push(
            match self.status {
                PositionStatus::Open => 0u8,
                PositionStatus::Closed => 1u8,
            },
        );
        push_zeros(&mut out, 5);
        push_zeros(&mut out, 64);
        assert(out@ =~= position_record(*self));
        out
    }

    /// Reads a stored position; `None` unless `data` has the position's size and kind byte
    /// and a known status.
    pub fn from_record_bytes(data: &[u8]) -> (r: Option<Position>)
        ensures
            r is Some <==> data@.len() == POSITION_RECORD_LEN && data@[0] == 1 && data@[202] <= 1,
            r matches Some(p) ==> data@.subrange(8, 203) == position_record(p).subrange(8, 203),
    {
        if data.len() != POSITION_RECORD_LEN || data[0] != 1 || data[202] > 1 {
            return None;
        }
        let status = if data[202] == 0 {
            PositionStatus::Open
        } else {
            PositionStatus::Closed
        };
        let opened_at = read_u64(data, 184);
        let last_rebalance = read_u64(data, 192);
        let p = Position {
            session_wallet: read_key(data, 8),
            pool: read_key(data, 40),
            base_mint: read_key(data, 72),
            quote_mint: read_key(data, 104),
            position_id: read_u64(data, 136),
            initial_tvl: read_u64(data, 144),
            current_tvl: read_u64(data, 152),
            fee_paid: read_u64(data, 160),
            fees_claimed: read_u64(data, 168),
            total_compounded: read_u64(data, 176),
            opened_at: as_signed(opened_at),
            last_rebalance: as_signed(last_rebalance),
            protocol: data[200],
            strategy: data[201],
            status: status,
        };
        assert(data@.subrange(8, 203) =~= position_record(p).subrange(8, 203));
        Some(p)
    }
}

} // verus!
