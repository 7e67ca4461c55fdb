use vstd::prelude::*;
use crate::pubkey::Pubkey;
use crate::error::ProcessError;
use crate::address::{le_bytes, program_id, program_id_spec};
use crate::bytes::{le16, push_key, push_u16, push_u64, push_zeros, read_key, read_u16, read_u64};

verus! {

/// The operations the program offers, by their one-byte tag.
#[derive(Clone, Copy, Debug, PartialEq, Eq, Structural)]
pub enum MetatoolsInstruction {
    InitializeConfig,
    CreateVault,
    CloseVault,
    OpenPosition,
    ClosePosition,
    UpdatePositionTVL,
    UpdateConfig,
}

impl MetatoolsInstruction {
    /// The one-byte tag of each operation.
    pub open spec fn tag_spec(&self) -> u8 {
        match self {
            MetatoolsInstruction::InitializeConfig => 0,
            MetatoolsInstruction::CreateVault => 1,
            MetatoolsInstruction::CloseVault => 2,
            MetatoolsInstruction::OpenPosition => 3,
            MetatoolsInstruction::ClosePosition => 4,
            MetatoolsInstruction::UpdatePositionTVL => 5,
            MetatoolsInstruction::UpdateConfig => 6,
        }
    }

    /// The operation that `tag` names, if any.
    pub fn from_tag(tag: u8) -> (r: Option<MetatoolsInstruction>)
        ensures
            r is None <==> tag > 6,
            r matches Some(ix) ==> ix.tag_spec() == tag,
    {
        if tag == 0 {
            Some(MetatoolsInstruction::InitializeConfig)
        } else if tag == 1 {
            Some(MetatoolsInstruction::CreateVault)
        } else if tag == 2 {
            Some(MetatoolsInstruction::CloseVault)
        } else if tag == 3 {
            Some(MetatoolsInstruction::OpenPosition)
        } else if tag == 4 {
            Some(MetatoolsInstruction::ClosePosition)
        } else if tag == 5 {
            Some(MetatoolsInstruction::UpdatePositionTVL)
        } else if tag == 6 {
            Some(MetatoolsInstruction::UpdateConfig)
        } else {
            None
        }
    }
}

/// Creates the configuration record (admin only, once).
#[derive(Clone, Copy, Debug)]
pub struct InitializeConfig {
    pub treasury: Pubkey,
    pub buyback_wallet: Pubkey,
    pub fee_bps: u16,
    pub referral_pct: u8,
    pub buyback_pct: u8,
    pub treasury_pct: u8,
}

/// Creates the vault record of a session wallet.
#[derive(Clone, Copy, Debug)]
pub struct CreateVault {
    pub referrer: Pubkey,
}

/// Closes a vault that has no open positions (not offered yet).
#[derive(Clone, Copy, Debug)]
pub struct CloseVault {}

/// Opens a position, charging the configured fee.
#[derive(Clone, Copy, Debug)]
pub struct OpenPosition {
    pub pool: Pubkey,
    pub base_mint: Pubkey,
    pub quote_mint: Pubkey,
    pub initial_tvl: u64,
    pub protocol: u8,
    pub strategy: u8,
}

/// Closes a position.
#[derive(Clone, Copy, Debug)]
pub struct ClosePosition {
    pub position_id: u64,
}

/// Records the current value of a position.
#[derive(Clone, Copy, Debug)]
pub struct UpdatePositionTVL {
    pub position_id: u64,
    pub new_tvl: u64,
    pub fees_claimed: u64,
    pub total_compounded: u64,
}

/// Overwrites the configuration (admin only).
#[derive(Clone, Copy, Debug)]
pub struct UpdateConfig {
    pub new_treasury: Pubkey,
    pub new_buyback_wallet: Pubkey,
    pub new_fee_bps: u16,
    pub new_referral_pct: u8,
    pub new_buyback_pct: u8,
    pub new_treasury_pct: u8,
    /// Nonzero pauses the program.
    pub paused: u8,
}

pub open spec fn zeros(n: nat) -> Seq<u8> {
    Seq::new(n, |i: int| 0u8)
}

/// The 72-byte layout: treasury, buyback wallet, fee (2 bytes), the three percentages and
/// three bytes of padding.
pub open spec fn initialize_config_body(a: InitializeConfig) -> Seq<u8> {
    a.treasury@ + a.buyback_wallet@ + le16(a.fee_bps) + seq![
        a.referral_pct,
        a.buyback_pct,
        a.treasury_pct,
    ] + zeros(3)
}

pub open spec fn create_vault_body(a: CreateVault) -> Seq<u8> {
    a.referrer@
}

/// The 112-byte layout: pool, base mint, quote mint, initial value (8 bytes), protocol,
/// strategy and six bytes of padding.
pub open spec fn open_position_body(a: OpenPosition) -> Seq<u8> {
    a.pool@ + a.base_mint@ + a.quote_mint@ + le_bytes(a.initial_tvl) + seq![
        a.protocol,
        a.strategy,
    ] + zeros(6)
}

pub open spec fn close_position_body(a: ClosePosition) -> Seq<u8> {
    le_bytes(a.position_id)
}

pub open spec fn update_position_tvl_body(a: UpdatePositionTVL) -> Seq<u8> {
    le_bytes(a.position_id) + le_bytes(a.new_tvl) + le_bytes(a.fees_claimed) + le_bytes(
        a.total_compounded,
    )
}

/// The 72-byte layout: treasury, buyback wallet, fee (2 bytes), the three percentages, the
/// pause flag and two bytes of padding.
pub open spec fn update_config_body(a: UpdateConfig) -> Seq<u8> {
    a.new_treasury@ + a.new_buyback_wallet@ + le16(a.new_fee_bps) + seq![
        a.new_referral_pct,
        a.new_buyback_pct,
        a.new_treasury_pct,
        a.paused,
    ] + zeros(2)
}

impl InitializeConfig {
    /// The instruction bytes: tag 0, then the body.
    pub fn to_bytes(&self) -> (r: Vec<u8>)
        ensures
            r@ == seq![0u8] + initialize_config_body(*self),
    {
        let mut out: Vec<u8> = vec![0u8];
        push_key(&mut out, &self.treasury);
        push_key(&mut out, &self.buyback_wallet);
        push_u16(&mut out, self.fee_bps);
        out.push(self.referral_pct);
        out.push(self.buyback_pct);
        out.push(self.treasury_pct);
        push_zeros(&mut out, 3);
        assert(out@ =~= seq![0u8] + initialize_config_body(*self));
        out
    }
}

impl CreateVault {
    /// The instruction bytes: tag 1, then the referrer.
    pub fn to_bytes(&self) -> (r: Vec<u8>)
        ensures
            r@ == seq![1u8] + create_vault_body(*self),
    {
        let mut out: Vec<u8> = vec![1u8];
        push_key(&mut out, &self.referrer);
        out
    }
}

impl CloseVault {
    /// The instruction bytes: tag 2 alone.
    pub fn to_bytes(&self) -> (r: Vec<u8>)
        ensures
            r@ == seq![2u8],
    {
        let out: Vec<u8> = vec![2u8];
        assert(out@ =~= seq![2u8]);
        out
    }
}

impl OpenPosition {
    /// The instruction bytes: tag 3, then the body.
    pub fn to_bytes(&self) -> (r: Vec<u8>)
        ensures
            r@ == seq![3u8] + open_position_body(*self),
    {
        let mut out: Vec<u8> = vec![3u8];
        push_key(&mut out, &self.pool);
        push_key(&mut out, &self.base_mint);
        push_key(&mut out, &self.quote_mint);
        push_u64(&mut out, self.initial_tvl);
        out.push(self.protocol);
        out.push(self.strategy);
        push_zeros(&mut out, 6);
        assert(out@ =~= seq![3u8] + open_position_body(*self));
        out
    }
}

impl ClosePosition {
    /// The instruction bytes: tag 4, then the position id.
    pub fn to_bytes(&self) -> (r: Vec<u8>)
        ensures
            r@ == seq![4u8] + close_position_body(*self),
    {
        let mut out: Vec<u8> = vec![4u8];
        push_u64(&mut out, self.position_id);
        out
    }
}

impl UpdatePositionTVL {
    /// The instruction bytes: tag 5, then the four values.
    pub fn to_bytes(&self) -> (r: Vec<u8>)
        ensures
            r@ == seq![5u8] + update_position_tvl_body(*self),
    {
        let mut out: Vec<u8> = vec![5u8];
        push_u64(&mut out, self.position_id);
        push_u64(&mut out, self.new_tvl);
        push_u64(&mut out, self.fees_claimed);
        push_u64(&mut out, self.total_compounded);
        assert(out@ =~= seq![5u8] + update_position_tvl_body(*self));
        out
    }
}

impl UpdateConfig {
    /// The instruction bytes: tag 6, then the body.
    pub fn to_bytes(&self) -> (r: Vec<u8>)
        ensures
            r@ == seq![6u8] + update_config_body(*self),
    {
        let mut out: Vec<u8> = vec![6u8];
        push_key(&mut out, &self.new_treasury);
        push_key(&mut out, &self.new_buyback_wallet);
        push_u16(&mut out, self.new_fee_bps);
        out.push(self.new_referral_pct);
        out.push(self.new_buyback_pct);
        out.push(self.new_treasury_pct);
        out.push(self.paused);
        push_zeros(&mut out, 2);
        assert(out@ =~= seq![6u8] + update_config_body(*self));
        out
    }
}

/// A decoded instruction that the program carries out.
#[derive(Clone, Copy, Debug)]
pub enum MetatoolsCommand {
    InitializeConfig(InitializeConfig),
    CreateVault(CreateVault),
    OpenPosition(OpenPosition),
    ClosePosition(ClosePosition),
    UpdatePositionTVL(UpdatePositionTVL),
    UpdateConfig(UpdateConfig),
}

/// Whether `data` is a well-formed instruction of an operation that is offered: a known
/// tag, other than the reserved vault close, followed by a body of the exact size.
pub open spec fn decodable(data: Seq<u8>) -> bool {
    data.len() >= 1 && {
        let n = data.len() - 1;
        ||| data[0] == 0 && n == 72
        ||| data[0] == 1 && n == 32
        ||| data[0] == 3 && n == 112
        ||| data[0] == 4 && n == 8
        ||| data[0] == 5 && n == 32
        ||| data[0] == 6 && n == 72
    }
}

/// Whether `cmd` is what `data` says, padding bytes aside.
pub open spec fn encodes(cmd: MetatoolsCommand, data: Seq<u8>) -> bool {
    let body = data.drop_first();
    data.len() >= 1 && match cmd {
        MetatoolsCommand::InitializeConfig(a) => data[0] == 0 && body.len() == 72
            && body.subrange(0, 69) == initialize_config_body(a).subrange(0, 69),
        MetatoolsCommand::CreateVault(a) => data[0] == 1 && body == create_vault_body(a),
        MetatoolsCommand::OpenPosition(a) => data[0] == 3 && body.len() == 112
            && body.subrange(0, 106) == open_position_body(a).subrange(0, 106),
        MetatoolsCommand::ClosePosition(a) => data[0] == 4 && body == close_position_body(a),
        MetatoolsCommand::UpdatePositionTVL(a) => data[0] == 5 && body
            == update_position_tvl_body(a),
        MetatoolsCommand::UpdateConfig(a) => data[0] == 6 && body.len() == 72
            && body.subrange(0, 70) == update_config_body(a).subrange(0, 70),
    }
}

fn decode_initialize_config(body: &[u8]) -> (r: InitializeConfig)
    requires
        body@.len() == 72,
    ensures
        body@.subrange(0, 69) == initialize_config_body(r).subrange(0, 69),
{
    let r = InitializeConfig {
        treasury: read_key(body, 0),
        buyback_wallet: read_key(body, 32),
        fee_bps: read_u16(body, 64),
        referral_pct: body[66],
        buyback_pct: body[67],
        treasury_pct: body[68],
    };
    assert(body@.subrange(0, 69) =~= initialize_config_body(r).subrange(0, 69));
    r
}

fn decode_open_position(body: &[u8]) -> (r: OpenPosition)
    requires
        body@.len() == 112,
    ensures
        body@.subrange(0, 106) == open_position_body(r).subrange(0, 106),
{
    let r = OpenPosition {
        pool: read_key(body, 0),
        base_mint: read_key(body, 32),
        quote_mint: read_key(body, 64),
        initial_tvl: read_u64(body, 96),
        protocol: body[104],
        strategy: body[105],
    };
    assert(body@.subrange(0, 106) =~= open_position_body(r).subrange(0, 106));
    r
}

fn decode_update_position_tvl(body: &[u8]) -> (r: UpdatePositionTVL)
    requires
        body@.len() == 32,
    ensures
        body@ == update_position_tvl_body(r),
{
    let r = UpdatePositionTVL {
        position_id: read_u64(body, 0),
        new_tvl: read_u64(body, 8),
        fees_claimed: read_u64(body, 16),
        total_compounded: read_u64(body, 24),
    };
    assert(body@ =~= update_position_tvl_body(r));
    r
}

fn decode_update_config(body: &[u8]) -> (r: UpdateConfig)
    requires
        body@.len() == 72,
    ensures
        body@.subrange(0, 70) == update_config_body(r).subrange(0, 70),
{
    let r = UpdateConfig {
        new_treasury: read_key(body, 0),
        new_buyback_wallet: read_key(body, 32),
        new_fee_bps: read_u16(body, 64),
        new_referral_pct: body[66],
        new_buyback_pct: body[67],
        new_treasury_pct: body[68],
        paused: body[69],
    };
    assert(body@.subrange(0, 70) =~= update_config_body(r).subrange(0, 70));
    r
}

/// Checks that an instruction is addressed to this program and decodes it. The reserved
/// vault close, an unknown tag, or a body of the wrong size is refused.
pub fn process_instruction(program: &Pubkey, data: &[u8]) -> (r: Result<
    MetatoolsCommand,
    ProcessError,
>)
    ensures
        program@ != program_id_spec() ==> r == Err::<MetatoolsCommand, ProcessError>(
            ProcessError::IncorrectProgramId,
        ),
        program@ == program_id_spec() && !decodable(data@) ==> r == Err::<
            MetatoolsCommand,
            ProcessError,
        >(ProcessError::InvalidInstructionData),
        program@ == program_id_spec() && decodable(data@) ==> (r matches Ok(cmd) && encodes(
            cmd,
            data@,
        )),
{
    let id = program_id();
    if *program != id {
        return Err(ProcessError::IncorrectProgramId);
    }
    let n = data.len();
    if n == 0 {
        return Err(ProcessError::InvalidInstructionData);
    }
    let ix = match MetatoolsInstruction::from_tag(data[0]) {
        Some(ix) => ix,
        None => {
            return Err(ProcessError::InvalidInstructionData);
        },
    };
    let body = data.split_at(1).1;
    assert(body@ =~= data@.drop_first());
    let size = n - 1;
    match ix {
        MetatoolsInstruction::InitializeConfig if size == 72 => {
            Ok(MetatoolsCommand::InitializeConfig(decode_initialize_config(body)))
        },
        MetatoolsInstruction::CreateVault if size == 32 => {
            let a = CreateVault { referrer: read_key(body, 0) };
            assert(body@ =~= body@.subrange(0, 32));
            Ok(MetatoolsCommand::CreateVault(a))
        },
        MetatoolsInstruction::OpenPosition if size == 112 => {
            Ok(MetatoolsCommand::OpenPosition(decode_open_position(body)))
        },
        MetatoolsInstruction::ClosePosition if size == 8 => {
            let a = ClosePosition { position_id: read_u64(body, 0) };
            assert(body@ =~= body@.subrange(0, 8));
            Ok(MetatoolsCommand::ClosePosition(a))
        },
        MetatoolsInstruction::UpdatePositionTVL if size == 32 => {
            Ok(MetatoolsCommand::UpdatePositionTVL(decode_update_position_tvl(body)))
        },
        MetatoolsInstruction::UpdateConfig if size == 72 => {
            Ok(MetatoolsCommand::UpdateConfig(decode_update_config(body)))
        },
        _ => Err(ProcessError::InvalidInstructionData),
    }
}

} // verus!
