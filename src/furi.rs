use vstd::prelude::*;

pub mod message_queue;

verus! {

/// The kernel's status code for a completed operation.
pub const STATUS_OK: i32 = 0;

/// The kernel's status code for an unspecified failure.
pub const STATUS_ERROR: i32 = -1;

/// The kernel's status code for an operation that ran out of time.
pub const STATUS_ERROR_TIMEOUT: i32 = -2;

/// The kernel's status code for a resource that is not available.
pub const STATUS_ERROR_RESOURCE: i32 = -3;

/// The kernel's status code for a rejected parameter.
pub const STATUS_ERROR_PARAMETER: i32 = -4;

/// The kernel's status code for an exhausted memory pool.
pub const STATUS_ERROR_NO_MEMORY: i32 = -5;

/// The kernel's status code for a call that is forbidden in an interrupt.
pub const STATUS_ERROR_ISR: i32 = -6;

/// Timeout, in kernel ticks, that never elapses.
pub const WAIT_FOREVER: u32 = 0xFFFF_FFFF;

/// How long a kernel call may wait.
#[derive(Clone, Copy, Debug, PartialEq, Eq, Structural)]
pub enum Wait {
    /// Never time out.
    Forever,
    /// Wait up to this many milliseconds.
    Millis(u32),
}

/// The wait for a timeout of `millis` milliseconds, or for the longest
/// timeout when `is_max` holds. A finite timeout too long for the kernel is
/// cut to the longest finite one, never to the sentinel that waits forever.
pub fn wait_for(is_max: bool, millis: u128) -> (w: Wait)
    ensures
        w == (if is_max {
            Wait::Forever
        } else if millis < WAIT_FOREVER as u128 {
            Wait::Millis(millis as u32)
        } else {
            Wait::Millis((WAIT_FOREVER - 1) as u32)
        }),
{
    if is_max {
        Wait::Forever
    } else if millis < WAIT_FOREVER as u128 {
        Wait::Millis(millis as u32)
    } else {
        Wait::Millis(WAIT_FOREVER - 1)
    }
}

/// Errors that the kernel reports for an operation that did not complete.
#[derive(Clone, Copy, Debug, PartialEq, Eq, Structural)]
pub enum Error {
    /// A generic kernel failure.
    Unspecified,
    /// The operation did not complete within the timeout.
    TimedOut,
    /// The resource was not available.
    ResourceBusy,
    /// A parameter was rejected.
    InvalidParameter,
    /// The kernel ran out of memory.
    OutOfMemory,
    /// The call is not allowed from an interrupt context.
    ForbiddenInISR,
    /// Any other negative status code.
    Other(i32),
}

/// Outcome of a kernel operation.
pub type Result<T> = core::result::Result<T, Error>;

/// The error that a failing status code stands for.
pub open spec fn error_of_code(code: i32) -> Error {
    if code == STATUS_ERROR {
        Error::Unspecified
    } else if code == STATUS_ERROR_TIMEOUT {
        Error::TimedOut
    } else if code == STATUS_ERROR_RESOURCE {
        Error::ResourceBusy
    } else if code == STATUS_ERROR_PARAMETER {
        Error::InvalidParameter
    } else if code == STATUS_ERROR_NO_MEMORY {
        Error::OutOfMemory
    } else if code == STATUS_ERROR_ISR {
        Error::ForbiddenInISR
    } else {
        Error::Other(code)
    }
}

/// The status code that reports an error.
pub open spec fn code_of_error(e: Error) -> i32 {
    match e {
        Error::Unspecified => STATUS_ERROR,
        Error::TimedOut => STATUS_ERROR_TIMEOUT,
        Error::ResourceBusy => STATUS_ERROR_RESOURCE,
        Error::InvalidParameter => STATUS_ERROR_PARAMETER,
        Error::OutOfMemory => STATUS_ERROR_NO_MEMORY,
        Error::ForbiddenInISR => STATUS_ERROR_ISR,
        Error::Other(c) => c,
    }
}

/// An error is well formed when its code is a failure code that no named
/// variant already covers.
pub open spec fn error_is_canonical(e: Error) -> bool {
    match e {
        Error::Other(c) => c < 0 && c < STATUS_ERROR_ISR,
        _ => true,
    }
}

impl Error {
    /// The status code that reports this error.
    pub fn to_code(&self) -> (r: i32)
        ensures
            r == code_of_error(*self),
    {
        match self {
            Error::Unspecified => STATUS_ERROR,
            Error::TimedOut => STATUS_ERROR_TIMEOUT,
            Error::ResourceBusy => STATUS_ERROR_RESOURCE,
            Error::InvalidParameter => STATUS_ERROR_PARAMETER,
            Error::OutOfMemory => STATUS_ERROR_NO_MEMORY,
            Error::ForbiddenInISR => STATUS_ERROR_ISR,
            Error::Other(c) => *c,
        }
    }
}

/// A raw status code as the kernel returns it.
#[derive(Clone, Copy, Debug, PartialEq, Eq, Structural)]
pub struct Status(pub i32);

impl Status {
    /// Whether the status reports success.
    pub fn is_ok(&self) -> (r: bool)
        ensures
            r == (self.0 == STATUS_OK),
    {
        self.0 == STATUS_OK
    }

    /// Whether the status reports a failure.
    pub fn is_err(&self) -> (r: bool)
        ensures
            r == (self.0 != STATUS_OK),
    {
        self.0 != STATUS_OK
    }

    /// The error that this status reports; `None` for a success code.
    pub fn to_error(&self) -> (r: Option<Error>)
        ensures
            r == (if self.0 == STATUS_OK {
                None
            } else {
                Some(error_of_code(self.0))
            }),
    {
        let c = self.0;
        if c == STATUS_OK {
            None
        } else if c == STATUS_ERROR {
            Some(Error::Unspecified)
        } else if c == STATUS_ERROR_TIMEOUT {
            Some(Error::TimedOut)
        } else if c == STATUS_ERROR_RESOURCE {
            Some(Error::ResourceBusy)
        } else if c == STATUS_ERROR_PARAMETER {
            Some(Error::InvalidParameter)
        } else if c == STATUS_ERROR_NO_MEMORY {
            Some(Error::OutOfMemory)
        } else if c == STATUS_ERROR_ISR {
            Some(Error::ForbiddenInISR)
        } else {
            Some(Error::Other(c))
        }
    }

    /// `Ok(value)` when the status reports success, the reported error otherwise.
    pub fn err_or<T>(self, value: T) -> (r: Result<T>)
        ensures
            self.0 == STATUS_OK ==> r == Ok::<T, Error>(value),
            self.0 != STATUS_OK ==> r == Err::<T, Error>(error_of_code(self.0)),
    {
        match self.to_error() {
            None => Ok(value),
            Some(e) => Err(e),
        }
    }

    /// The status that reports an error.
    pub fn from_error(e: Error) -> (r: Status)
        ensures
            r.0 == code_of_error(e),
    {
        Status(e.to_code())
    }
}

/// Reading a status back from the code of a canonical error gives that error.
pub proof fn lemma_error_code_round_trip(e: Error)
    requires
        error_is_canonical(e),
    ensures
        code_of_error(e) != STATUS_OK,
        error_of_code(code_of_error(e)) == e,
{
}

/// Every failure code names a canonical error and is given back by that error.
pub proof fn lemma_code_error_round_trip(code: i32)
    requires
        code < 0,
    ensures
        error_is_canonical(error_of_code(code)),
        code_of_error(error_of_code(code)) == code,
{
}

} // verus!
