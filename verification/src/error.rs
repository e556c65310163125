use vstd::prelude::*;

verus! {

/// Errors that the token program reports for its own reasons.
#[derive(Clone, Copy, Debug, PartialEq, Eq, Structural)]
pub enum TokenError {
    /// The account's mint does not match the mint that was given.
    MintMismatch,
    /// The key of the account that authorized the operation is not the
    /// authority that the operation needs.
    OwnerMismatch,
    /// The mint is already in use and cannot be initialized again.
    AlreadyInUse,
    /// The instruction could not be decoded or is not allowed.
    InvalidInstruction,
    /// The account is not in a state that allows the operation.
    InvalidState,
    /// An amount would overflow.
    Overflow,
    /// The authority that the operation needs was never set.
    NoAuthorityExists,
}

/// Errors returned by the operations of this library.
#[derive(Clone, Copy, Debug, PartialEq, Eq, Structural)]
pub enum ProgramError {
    /// An argument was invalid (for instance an all-zero key given as `Some`).
    InvalidArgument,
    /// Instruction data had the wrong length or was empty.
    InvalidInstructionData,
    /// An account does not hold the extension that the operation reads.
    InvalidAccountData,
    /// A mint or token account has not been initialized.
    UninitializedAccount,
    /// The program id is not that of the token program.
    IncorrectProgramId,
    /// An arithmetic operation overflowed, underflowed or divided by zero.
    ArithmeticOverflow,
    /// A token program error.
    Token(TokenError),
}

} // verus!
