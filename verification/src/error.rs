//! Why an instruction is refused, and when the program aborts.

use vstd::prelude::*;

verus! {

/// The errors of the Anker program itself.
#[derive(Clone, Copy, Debug, PartialEq, Eq, Structural)]
pub enum AnkerError {
    /// The Anker account is not owned by this program.
    InvalidOwner,
    /// The Solido account is not the one that the Anker instance belongs to.
    InvalidSolidoInstance,
    /// An account does not live at the program-derived address that it should.
    InvalidDerivedAccount,
    /// The bSOL mint is not the expected one, or it cannot be read or used.
    InvalidTokenMint,
    /// The stSOL reserve account cannot be read.
    InvalidReserveAccount,
    /// A token account is not owned by the SPL token program.
    InvalidTokenAccountOwner,
    /// A token account cannot be read, or holds tokens of another mint.
    InvalidTokenAccount,
}

/// The errors that stem from the Solido state and its arithmetic.
#[derive(Clone, Copy, Debug, PartialEq, Eq, Structural)]
pub enum LidoError {
    /// The Solido account is not owned by the Solido program.
    InvalidOwner,
    /// The manager is not the one in the Solido state.
    InvalidManager,
    /// A calculation overflowed, underflowed or divided by zero.
    CalculationFailure,
}

/// Why a value cannot be read from, or written as, its Borsh encoding.
#[derive(Clone, Copy, Debug, PartialEq, Eq, Structural)]
pub enum BorshError {
    /// There are fewer bytes than the value needs.
    UnexpectedLength,
    /// The first byte names no variant.
    UnexpectedVariant(u8),
    /// Bytes are left after the value.
    NotAllBytesRead,
    /// There is no room to write the value.
    WriteZero,
}

/// An error with which an instruction ends.
#[derive(Clone, Copy, Debug, PartialEq, Eq, Structural)]
pub enum ProgramError {
    Anker(AnkerError),
    Lido(LidoError),
    Borsh(BorshError),
    InvalidArgument,
    InvalidAccountData,
    IncorrectProgramId,
    MissingRequiredSignature,
    /// An error that came back from work outside the library, by the number under which
    /// whoever did the work keeps it.
    Outside(u64),
}

/// Why the program stops without returning an error.
#[derive(Clone, Copy, Debug, PartialEq, Eq, Structural)]
pub enum Abort {
    /// No bump seed takes a derived address off the curve.
    NoViableBumpSeed,
    /// An account is too short to hold the token state that is read from it.
    AccountDataTooShort,
}

/// How an instruction fails: with an error that it returns, or by aborting.
#[derive(Clone, Copy, Debug, PartialEq, Eq, Structural)]
pub enum Failure {
    Error(ProgramError),
    Abort(Abort),
}

/// An error of the Anker program, as a failure.
pub open spec fn anker_failure(error: AnkerError) -> Failure {
    Failure::Error(ProgramError::Anker(error))
}

/// An error of the Solido state, as a failure.
pub open spec fn lido_failure(error: LidoError) -> Failure {
    Failure::Error(ProgramError::Lido(error))
}

} // verus!
