//! Failure results of the entry points. Every error aborts the whole
//! invocation: the store is left exactly as it was.

use vstd::prelude::*;

verus! {

#[derive(Debug, Clone, Copy, PartialEq, Eq, Structural)]
pub enum ContractError {
    /// The caller of a mutating Execute is not the recorded owner.
    Unauthorized,
    /// Query or Execute was invoked before any record was created.
    NotFound,
    /// Instantiate was invoked on an instance that already holds a record.
    AlreadyInitialized,
}

impl ContractError {
    /// A short description, for hosts that surface errors as text.
    pub fn describe(&self) -> (r: String)
        ensures
            r@ == match *self {
                ContractError::Unauthorized => "unauthorized: caller is not the owner"@,
                ContractError::NotFound => "not found: no record has been created"@,
                ContractError::AlreadyInitialized => "already initialized: a record exists"@,
            },
    {
        let s = match self {
            ContractError::Unauthorized => "unauthorized: caller is not the owner",
            ContractError::NotFound => "not found: no record has been created",
            ContractError::AlreadyInitialized => "already initialized: a record exists",
        };
        s.to_string()
    }
}

} // verus!
