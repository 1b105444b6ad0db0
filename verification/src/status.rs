//! Status codes of the native library and their mapping to a two-outcome
//! result.

use vstd::prelude::*;

verus! {

/// Status reported by every creating or mutating call of the native library.
#[derive(Debug, Clone, Copy, PartialEq, Eq, Structural)]
pub enum Result {
    /// The call did what was asked.
    Success,
    /// A runtime failure inside the native library, not further diagnosable.
    Failure,
    /// A record supplied by the caller violates a precondition.
    InvalidArgument,
    /// The requested capability is absent from the loaded binary.
    Unsupported,
    /// Two denoisers of one creation request share an identifier.
    NonUniqueIdentifier,
}

impl Result {
    /// The code that stands for this value in a native record.
    pub open spec fn raw_value(self) -> u32 {
        match self {
            Result::Success => 0,
            Result::Failure => 1,
            Result::InvalidArgument => 2,
            Result::Unsupported => 3,
            Result::NonUniqueIdentifier => 4,
        }
    }

    /// Encodes the value for a native record.
    pub fn raw(self) -> (code: u32)
        ensures
            code == self.raw_value(),
    {
        match self {
            Result::Success => 0,
            Result::Failure => 1,
            Result::InvalidArgument => 2,
            Result::Unsupported => 3,
            Result::NonUniqueIdentifier => 4,
        }
    }

    /// Decodes a code read from a native record. A code that stands for no
    /// value of this type is refused.
    pub fn from_raw(code: u32) -> (r: Option<Result>)
        ensures
            match r {
                Some(v) => v.raw_value() == code,
                None => forall|v: Result| v.raw_value() != code,
            },
    {
        match code {
            0 => Some(Result::Success),
            1 => Some(Result::Failure),
            2 => Some(Result::InvalidArgument),
            3 => Some(Result::Unsupported),
            4 => Some(Result::NonUniqueIdentifier),
            _ => None,
        }
    }

    /// The two-outcome result that this status stands for, carrying `value`
    /// on success.
    pub open spec fn ok_spec<T>(self, value: T) -> core::result::Result<T, Result> {
        if self == Result::Success {
            Ok(value)
        } else {
            Err(self)
        }
    }

    /// Turns the status into a two-outcome result: `Success` yields `value`,
    /// every other status is handed back unchanged as the error.
    pub fn ok<T>(self, value: T) -> (r: core::result::Result<T, Result>)
        ensures
            r == self.ok_spec(value),
    {
        match self {
            Result::Success => Ok(value),
            _ => Err(self),
        }
    }
}

} // verus!
