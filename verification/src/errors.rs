use vstd::prelude::*;

verus! {

/// Errors raised by the account checks and fee-configuration instructions.
#[derive(Debug, Clone, Copy, PartialEq, Eq, Structural)]
pub enum ErrorCode {
    MissingRemainingAccount,
    AccountNotSigner,
    AccountNotWritable,
    InvalidAccountOwner,
    InvalidTokenProgram,
    AccountNotExecutable,
    InvalidFeeRecipient,
    InvalidBump,
    Unauthorized,
    InvalidFeeNumerator,
    InvalidFeeFloor,
    InvalidAmount,
}

} // verus!
