use vstd::prelude::*;

use pinocchio::error::ProgramError;

verus! {

/// The errors that the market maker reports.
///
/// Each variant but the last has the meaning of the runtime error of the same
/// name; `Runtime` carries an error that a runtime service returned.
#[derive(Debug, PartialEq, Eq)]
pub enum AmmError {
    InvalidArgument,
    InvalidInstructionData,
    InvalidAccountData,
    InvalidAccountOwner,
    InsufficientFunds,
    IncorrectProgramId,
    MissingRequiredSignature,
    NotEnoughAccountKeys,
    InvalidSeeds,
    Custom(u32),
    Runtime(ProgramError),
}

/// A result whose value is taken by its view.
pub open spec fn result_view<T: View>(r: Result<T, AmmError>) -> Result<T::V, AmmError> {
    match r {
        Ok(t) => Ok(t@),
        Err(e) => Err(e),
    }
}

/// The outcome of a check followed by the rest of a computation: the check's
/// error if it failed, else the rest.
pub open spec fn then<T>(check: Result<(), AmmError>, rest: Result<T, AmmError>) -> Result<
    T,
    AmmError,
> {
    match check {
        Err(e) => Err(e),
        Ok(_) => rest,
    }
}

} // verus!
