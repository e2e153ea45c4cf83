//! Error kinds of the registry.

use vstd::prelude::*;

verus! {

/// Errors that are specific to the name service, each with a numeric code.
#[derive(Clone, Copy, Debug, PartialEq, Eq, Structural)]
pub enum NameServiceError {
    /// A data write would pass the end of the record's data region.
    OutOfSpace,
}

impl NameServiceError {
    /// The numeric code under which the ledger reports this error.
    pub fn code(&self) -> (c: u32)
        ensures
            c == self.spec_code(),
    {
        match self {
            NameServiceError::OutOfSpace => 0,
        }
    }

    /// The numeric code of each error.
    pub open spec fn spec_code(&self) -> u32 {
        match self {
            NameServiceError::OutOfSpace => 0,
        }
    }

    /// The error with the given code, if there is one.
    pub fn from_code(code: u32) -> (e: Option<NameServiceError>)
        ensures
            code == 0 ==> e == Some(NameServiceError::OutOfSpace),
            code != 0 ==> e is None,
            e is Some ==> e->0.spec_code() == code,
    {
        if code == 0 {
            Some(NameServiceError::OutOfSpace)
        } else {
            None
        }
    }

    /// The text shown for this error.
    pub fn message(&self) -> (m: &'static str)
        ensures
            m@ == "out of space"@,
    {
        match self {
            NameServiceError::OutOfSpace => "out of space",
        }
    }

    /// The name under which errors of this type are reported.
    pub fn type_of() -> (name: &'static str)
        ensures
            name@ == "NameServiceError"@,
    {
        "NameServiceError"
    }

    /// This error as a rejection of the registry.
    pub fn rejection(&self) -> (r: RegistryError)
        ensures
            r == RegistryError::OutOfSpace,
    {
        match self {
            NameServiceError::OutOfSpace => RegistryError::OutOfSpace,
        }
    }
}

/// Every reason for which the registry rejects bytes or an operation.
#[derive(Clone, Copy, Debug, PartialEq, Eq, Structural)]
pub enum RegistryError {
    /// A data write would pass the end of the record's data region.
    OutOfSpace,
    /// Stored bytes do not hold a record header.
    InvalidHeader,
    /// Wire bytes do not hold an operation.
    InvalidInstruction,
    /// A required authorization proof is missing.
    Unauthorized,
    /// The target address is not the one derived from the name.
    AddressMismatch,
    /// An account was supplied that does not fit its declared role.
    AccountMismatch,
}

} // verus!
