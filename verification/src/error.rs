//! The errors the program returns to the runtime.
use vstd::prelude::*;

verus! {

/// The program errors this program decides on. Each one stands for the runtime
/// error of the same name.
#[derive(Debug, Clone, Copy, PartialEq, Eq, Structural)]
pub enum ProgramError {
    /// An argument handed to a computation was out of range.
    InvalidArgument,
    /// The instruction data could not be decoded.
    InvalidInstructionData,
    /// An account's data has the wrong shape or the wrong contents.
    InvalidAccountData,
    /// An account is not owned by the program that was expected.
    IncorrectProgramId,
    /// An account that must sign the transaction did not.
    MissingRequiredSignature,
    /// Fewer accounts were passed than the instruction needs.
    NotEnoughAccountKeys,
    /// An account is owned by the wrong party.
    IllegalOwner,
    /// A token account does not belong to the expected wallet.
    InvalidAccountOwner,
}

/// Why an instruction does not go ahead.
#[derive(Debug, Clone, Copy, PartialEq, Eq, Structural)]
pub enum Failure {
    /// The instruction fails with this error, returned to the runtime.
    Error(ProgramError),
    /// The escrow account's address is not the one derived from the maker and the
    /// bump; the program aborts rather than returning an error.
    EscrowAddressMismatch,
}

} // verus!
