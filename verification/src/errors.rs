//! The error taxonomy every instruction draws from.
use vstd::prelude::*;

verus! {

/// Program-specific failures, surfaced to the host as custom error codes.
///
/// `InvalidSignature` and `MintAuthorityClosed` are reserved: no instruction
/// currently raises them, but their codes stay fixed for forward
/// compatibility.
#[derive(Clone, Copy, Debug, PartialEq, Eq, Structural)]
pub enum NadrunnerError {
    InvalidSignature,
    ScoreExceedsMaximum,
    MintAuthorityClosed,
}

impl NadrunnerError {
    /// The stable numeric code for this custom failure.
    pub fn error_code(&self) -> (r: u32)
        ensures
            *self == NadrunnerError::InvalidSignature ==> r == 0,
            *self == NadrunnerError::ScoreExceedsMaximum ==> r == 1,
            *self == NadrunnerError::MintAuthorityClosed ==> r == 2,
    {
        match self {
            NadrunnerError::InvalidSignature => 0,
            NadrunnerError::ScoreExceedsMaximum => 1,
            NadrunnerError::MintAuthorityClosed => 2,
        }
    }
}

/// Every way an instruction can fail. A failed check aborts the whole
/// instruction with exactly one of these; no partial state is ever
/// committed.
#[derive(Clone, Copy, Debug, PartialEq, Eq, Structural)]
pub enum TokenError {
    /// The instruction buffer is empty, its opcode is unrecognized, or a
    /// fixed-width payload field cannot be sliced from the remaining bytes.
    InvalidInstructionData,
    /// A storage slot presented to the instruction is not assigned to this
    /// program.
    IncorrectProgramId,
    /// A slot being initialized does not meet the host's rent-exemption
    /// threshold.
    AccountNotRentExempt,
    /// The identity claimed for a role did not sign the invoking call.
    MissingRequiredSignature,
    /// An `Initialize` instruction found the record already constructed.
    AccountAlreadyInitialized,
    /// A record read by a non-initialize instruction is not yet initialized.
    UninitializedAccount,
    /// A record's bytes do not decode, or a stored identifier does not match
    /// the claimed signer.
    InvalidAccountData,
    /// A balance update would overflow the 64-bit amount.
    ArithmeticOverflow,
    /// A transfer asks for more than the source balance holds.
    InsufficientFunds,
    /// The caller supplied fewer account slots than the opcode expects.
    NotEnoughAccountKeys,
    /// A program-specific failure with its own numeric code.
    Custom(NadrunnerError),
}

} // verus!
