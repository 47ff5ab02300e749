use vstd::prelude::*;

verus! {

/// Why an entry point refused a call. A refused call changes no state.
#[derive(Clone, Copy, Debug, PartialEq, Eq, Structural)]
pub enum ContractError {
    /// The caller is not the identity the operation requires.
    Unauthorized,
    /// The attached payment is below the required fee.
    InsufficientPayment,
    /// No record under the given id or key.
    NotFound,
    /// The record's lifecycle state does not allow the operation.
    InvalidState,
}

impl ContractError {
    /// A human-readable reason for the refusal.
    pub fn message(&self) -> (r: &'static str) {
        match self {
            ContractError::Unauthorized => "Caller is not authorized",
            ContractError::InsufficientPayment => "Insufficient fee",
            ContractError::NotFound => "Record not found",
            ContractError::InvalidState => "Request already fulfilled",
        }
    }
}

} // verus!
