//! The failures that the host can observe.

use vstd::prelude::*;

verus! {

/// The place of a value among the parameters of the two boundary calls.
#[derive(Debug, Clone, Copy, PartialEq, Eq)]
pub enum Param {
    /// The verification key of a verification call.
    VerificationKey,
    /// The proof of a verification call.
    Proof,
    /// The public value at the given index of a verification call.
    PublicValue(usize),
    /// The engine configuration of a verification call.
    Config,
    /// The input of a hash call.
    HashInput,
}

/// Why a boundary call failed.
#[derive(Debug, Clone, PartialEq, Eq)]
pub enum BridgeError {
    /// The value in the named place was not text. The engine was not invoked.
    InvalidInputKind(Param),
    /// The engine ran and found that the proof does not verify.
    VerificationFailed,
    /// The engine aborted; the string is its diagnostic message.
    EngineFault(String),
}

/// The mathematical content of a [`BridgeError`].
pub enum Failure {
    InvalidInputKind(Param),
    VerificationFailed,
    EngineFault(Seq<char>),
}

impl View for BridgeError {
    type V = Failure;

    open spec fn view(&self) -> Failure {
        match self {
            BridgeError::InvalidInputKind(param) => Failure::InvalidInputKind(*param),
            BridgeError::VerificationFailed => Failure::VerificationFailed,
            BridgeError::EngineFault(message) => Failure::EngineFault(message@),
        }
    }
}

/// The mathematical content of what a fallible boundary operation returned.
pub open spec fn outcome<T: View>(result: Result<T, BridgeError>) -> Result<T::V, Failure> {
    match result {
        Ok(value) => Ok(value@),
        Err(error) => Err(error@),
    }
}

} // verus!
