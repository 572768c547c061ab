//! Error types

use vstd::prelude::*;

verus! {

/// Errors that may be returned by the program.
#[derive(Clone, Copy, Debug, PartialEq, Eq, Structural)]
pub enum SolariumError {
    /// Incorrect authority provided
    IncorrectAuthority,
    /// Calculation overflow, or a record that would outgrow its storage
    Overflow,
    /// Missing CEK
    CEKNotFound,
    /// Invalid CEK for this channel
    CEKIncorrectChannel,
    /// Attempt to create a channel for an address that is already in use
    AlreadyInUse,
    /// Incorrect account address derivation
    AddressDerivationMismatch,
    /// Missing key
    KeyNotFound,
}

impl SolariumError {
    /// The number under which the ledger reports this error: the position of
    /// the variant in the declaration.
    pub open spec fn spec_code(self) -> u32 {
        match self {
            SolariumError::IncorrectAuthority => 0,
            SolariumError::Overflow => 1,
            SolariumError::CEKNotFound => 2,
            SolariumError::CEKIncorrectChannel => 3,
            SolariumError::AlreadyInUse => 4,
            SolariumError::AddressDerivationMismatch => 5,
            SolariumError::KeyNotFound => 6,
        }
    }

    /// The custom error number of this error.
    pub fn code(&self) -> (c: u32)
        ensures
            c == self.spec_code(),
    {
        match self {
            SolariumError::IncorrectAuthority => 0,
            SolariumError::Overflow => 1,
            SolariumError::CEKNotFound => 2,
            SolariumError::CEKIncorrectChannel => 3,
            SolariumError::AlreadyInUse => 4,
            SolariumError::AddressDerivationMismatch => 5,
            SolariumError::KeyNotFound => 6,
        }
    }

    /// The error with the given custom error number, if there is one.
    pub fn from_code(code: u32) -> (e: Option<SolariumError>)
        ensures
            code <= 6 <==> e is Some,
            e matches Some(err) ==> err.spec_code() == code,
    {
        match code {
            0 => Some(SolariumError::IncorrectAuthority),
            1 => Some(SolariumError::Overflow),
            2 => Some(SolariumError::CEKNotFound),
            3 => Some(SolariumError::CEKIncorrectChannel),
            4 => Some(SolariumError::AlreadyInUse),
            5 => Some(SolariumError::AddressDerivationMismatch),
            6 => Some(SolariumError::KeyNotFound),
            _ => None,
        }
    }

    /// The text that describes this error.
    pub open spec fn spec_message(self) -> Seq<char> {
        match self {
            SolariumError::IncorrectAuthority => "Incorrect authority provided"@,
            SolariumError::Overflow => "Calculation overflow"@,
            SolariumError::CEKNotFound => "CEK not found"@,
            SolariumError::CEKIncorrectChannel => "CEK not valid for this channel"@,
            SolariumError::AlreadyInUse =>
                "Attempt to create a channel for an address that is already in use"@,
            SolariumError::AddressDerivationMismatch => "Incorrect account address derivation"@,
            SolariumError::KeyNotFound => "Key not found"@,
        }
    }

    /// The text that describes this error, as an owned string.
    pub fn message(&self) -> (text: String)
        ensures
            text@ == self.spec_message(),
    {
        match self {
            SolariumError::IncorrectAuthority => "Incorrect authority provided".to_string(),
            SolariumError::Overflow => "Calculation overflow".to_string(),
            SolariumError::CEKNotFound => "CEK not found".to_string(),
            SolariumError::CEKIncorrectChannel => "CEK not valid for this channel".to_string(),
            SolariumError::AlreadyInUse =>
                "Attempt to create a channel for an address that is already in use".to_string(),
            SolariumError::AddressDerivationMismatch =>
                "Incorrect account address derivation".to_string(),
            SolariumError::KeyNotFound => "Key not found".to_string(),
        }
    }

    /// The name under which errors of this family are reported.
    pub fn type_of() -> (name: &'static str)
        ensures
            name@ == "Solarium Error"@,
    {
        "Solarium Error"
    }
}

/// Every way in which an invocation of the program can fail.
#[derive(Clone, Copy, Debug, PartialEq, Eq, Structural)]
pub enum ProcessError {
    /// One of the program's own errors
    Custom(SolariumError),
    /// An account that stands for a ledger facility is not that facility
    InvalidArgument,
    /// An account is not owned by the program that must own it
    IncorrectProgramId,
    /// The authority did not sign the invocation
    MissingRequiredSignature,
    /// The record that the instruction works on has not been created
    UninitializedAccount,
    /// The account to create already holds data
    AccountAlreadyInitialized,
    /// The invocation names fewer accounts than the instruction needs
    NotEnoughAccountKeys,
    /// No address can be derived from the seeds
    InvalidSeeds,
    /// The ledger did not supply the time
    UnsupportedSysvar,
    /// An instruction buffer or a record is malformed
    BorshIoError,
}

} // verus!
