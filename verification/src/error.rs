use vstd::prelude::*;

verus! {

/// The program errors that these programs report, named as the Solana
/// runtime names them.
#[derive(PartialEq, Eq, Structural, Debug, Clone, Copy)]
pub enum ProgramError {
    InvalidArgument,
    InvalidInstructionData,
    InvalidAccountData,
    InsufficientFunds,
    MissingRequiredSignature,
    NotEnoughAccountKeys,
    InvalidSeeds,
    UnsupportedSysvar,
    MaxInstructionTraceLengthExceeded,
    InvalidAccountOwner,
    ArithmeticOverflow,
    AccountBorrowFailed,
}

} // verus!
