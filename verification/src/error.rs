use vstd::prelude::*;

verus! {

/// Return codes of the middleware that this library reports to its callers.
#[derive(Clone, Copy, Debug, PartialEq, Eq, Structural)]
pub enum RclReturnCode {
    /// Unspecified error.
    Error,
    /// A wait timed out before anything became ready.
    Timeout,
    /// An argument was out of range.
    InvalidArgument,
    /// A wait was requested on a wait set that holds nothing to wait on.
    WaitSetEmpty,
    /// An entity was added to a wait set that is already at its capacity.
    WaitSetFull,
    /// A subscription woke up but no message could be taken.
    SubscriptionTakeFailed,
    /// A client woke up but no response could be taken.
    ClientTakeFailed,
    /// A service woke up but no request could be taken.
    ServiceTakeFailed,
}

/// The error type of this library.
#[derive(Debug, PartialEq, Eq)]
pub enum RclrsError {
    /// An error reported by the middleware, with its return code and an optional message.
    RclError { code: RclReturnCode, msg: Option<String> },
}

impl RclrsError {
    /// The return code carried by the error.
    pub open spec fn spec_code(&self) -> RclReturnCode {
        match self {
            RclrsError::RclError { code, .. } => *code,
        }
    }

    /// An error with the given code and no message.
    pub open spec fn bare(code: RclReturnCode) -> RclrsError {
        RclrsError::RclError { code, msg: None }
    }

    /// Builds an error with the given code and no message.
    pub fn from_code(code: RclReturnCode) -> (e: RclrsError)
        ensures
            e == RclrsError::bare(code),
    {
        RclrsError::RclError { code, msg: None }
    }

    /// Returns the return code carried by the error.
    pub fn code(&self) -> (c: RclReturnCode)
        ensures
            c == self.spec_code(),
    {
        match self {
            RclrsError::RclError { code, .. } => *code,
        }
    }
}

} // verus!
