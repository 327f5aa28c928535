//! The errors of the adapter.

use vstd::prelude::*;

verus! {

/// Errors that the adapter may return under a code of its own.
#[derive(Clone, Copy, Debug, PartialEq, Eq)]
pub enum MetadataError {
    /// The instruction data could not be unpacked.
    UnknownError,
}

impl MetadataError {
    /// The number under which the error is reported.
    pub open spec fn spec_code(self) -> u32 {
        match self {
            MetadataError::UnknownError => 0,
        }
    }

    /// The number under which the error is reported.
    pub fn code(&self) -> (code: u32)
        ensures
            code == self.spec_code(),
    {
        match self {
            MetadataError::UnknownError => 0,
        }
    }

    /// The error that is reported under `code`, if there is one.
    pub fn from_code(code: u32) -> (error: Option<MetadataError>)
        ensures
            match error {
                Some(e) => e.spec_code() == code,
                None => forall|e: MetadataError| e.spec_code() != code,
            },
    {
        if code == 0 {
            Some(MetadataError::UnknownError)
        } else {
            None
        }
    }

    /// The text that describes the error.
    pub fn message(&self) -> (text: String)
        ensures
            *self == MetadataError::UnknownError ==> text@
                == "Failed to unpack instruction data"@,
    {
        match self {
            MetadataError::UnknownError => "Failed to unpack instruction data".to_owned(),
        }
    }

    /// The name of this family of errors.
    pub fn type_of() -> (name: &'static str)
        ensures
            name@ == "Metadata Error"@,
    {
        "Metadata Error"
    }
}

/// Why a byte buffer is not the encoding of any record.
#[derive(Clone, Copy, Debug, PartialEq, Eq)]
pub enum DecodeError {
    /// The buffer ends before the record does.
    UnexpectedEnd,
    /// The leading byte selects no variant; it is carried along.
    UnknownDiscriminant(u8),
    /// The buffer goes on after the record has ended.
    TrailingBytes,
}

/// Why an invocation failed. Every failure ends the invocation.
#[derive(Clone, Copy, Debug, PartialEq, Eq)]
pub enum ProcessError {
    /// The instruction payload encodes no command.
    InvalidInstruction(DecodeError),
    /// Fewer accounts were supplied than the command has roles.
    NotEnoughAccountKeys,
    /// The bridge-state account stores no bridge record.
    InvalidBridgeState(DecodeError),
    /// The account in the token-program role is not the token-custody program.
    IncorrectProgramId,
    /// A sub-call failed; its result code is carried along as it was reported.
    SubCallFailed(u64),
}

} // verus!
