use vstd::prelude::*;

verus! {

/// Failures specific to the vault ledger.
#[derive(Clone, Copy, Debug, PartialEq, Eq, Structural)]
pub enum MetatoolsError {
    InvalidAuthority,
    VaultPaused,
    VaultHasOpenPositions,
    PositionNotFound,
    PositionClosed,
    InsufficientFunds,
    InvalidPDA,
    InvalidProtocol,
    ProgramPaused,
    Unauthorized,
    InvalidFeeConfig,
    ArithmeticOverflow,
    InvalidPositionStatus,
    InvalidVaultStatus,
    InvalidFeePercentages,
    SessionWalletMismatch,
}

impl MetatoolsError {
    /// The stable numeric code of each error, in declaration order.
    pub open spec fn code_spec(&self) -> u32 {
        match self {
            MetatoolsError::InvalidAuthority => 0,
            MetatoolsError::VaultPaused => 1,
            MetatoolsError::VaultHasOpenPositions => 2,
            MetatoolsError::PositionNotFound => 3,
            MetatoolsError::PositionClosed => 4,
            MetatoolsError::InsufficientFunds => 5,
            MetatoolsError::InvalidPDA => 6,
            MetatoolsError::InvalidProtocol => 7,
            MetatoolsError::ProgramPaused => 8,
            MetatoolsError::Unauthorized => 9,
            MetatoolsError::InvalidFeeConfig => 10,
            MetatoolsError::ArithmeticOverflow => 11,
            MetatoolsError::InvalidPositionStatus => 12,
            MetatoolsError::InvalidVaultStatus => 13,
            MetatoolsError::InvalidFeePercentages => 14,
            MetatoolsError::SessionWalletMismatch => 15,
        }
    }

    /// The stable numeric code of the error, as carried on the wire.
    pub fn code(&self) -> (r: u32)
        ensures
            r == self.code_spec(),
    {
        match self {
            MetatoolsError::InvalidAuthority => 0,
            MetatoolsError::VaultPaused => 1,
            MetatoolsError::VaultHasOpenPositions => 2,
            MetatoolsError::PositionNotFound => 3,
            MetatoolsError::PositionClosed => 4,
            MetatoolsError::InsufficientFunds => 5,
            MetatoolsError::InvalidPDA => 6,
            MetatoolsError::InvalidProtocol => 7,
            MetatoolsError::ProgramPaused => 8,
            MetatoolsError::Unauthorized => 9,
            MetatoolsError::InvalidFeeConfig => 10,
            MetatoolsError::ArithmeticOverflow => 11,
            MetatoolsError::InvalidPositionStatus => 12,
            MetatoolsError::InvalidVaultStatus => 13,
            MetatoolsError::InvalidFeePercentages => 14,
            MetatoolsError::SessionWalletMismatch => 15,
        }
    }
}

/// Why an operation was refused. Every refusal leaves all records as they were.
#[derive(Clone, Copy, Debug, PartialEq, Eq, Structural)]
pub enum ProcessError {
    /// A rule of the ledger was broken.
    Vault(MetatoolsError),
    /// An identity that has to sign did not.
    MissingRequiredSignature,
    /// The instruction bytes do not decode, or name an operation that is not offered.
    InvalidInstructionData,
    /// The instruction was addressed to another program.
    IncorrectProgramId,
    /// The record to be created already exists.
    AccountAlreadyInitialized,
    /// The record to be read does not exist.
    UninitializedAccount,
}

} // verus!
