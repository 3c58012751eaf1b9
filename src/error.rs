use vstd::prelude::*;

verus! {

/// A status code as the native runtime reports it.
///
/// Plain calls report `Succeeded` or `Failed`; waits may also report
/// `Timeout`; stream reads may report `Eof`; size probes of variable-length
/// outputs report `BufferTooSmall` together with the size they need.
#[derive(Clone, Copy, Debug, PartialEq, Eq, Structural)]
pub enum Status {
    Succeeded,
    Failed,
    Timeout,
    Eof,
    BufferTooSmall,
}

/// The typed errors of the handle layer.
#[derive(Clone, Copy, Debug, PartialEq, Eq, Structural)]
pub enum Error {
    /// A native operation reported failure.
    Failed,
    /// A blocking retrieval ran out of time with no data: safe to retry.
    Timeout,
    /// A stream read went past the end (or the start) of a recording.
    Eof,
    /// The size-discovery call of a variable-length output failed or
    /// reported zero bytes.
    SizeProbeFailed,
    /// A text output of the runtime is not valid UTF-8.
    InvalidUtf8,
}

/// The error that a non-success status turns into.
pub open spec fn error_of(s: Status) -> Error {
    match s {
        Status::Timeout => Error::Timeout,
        Status::Eof => Error::Eof,
        _ => Error::Failed,
    }
}

/// What a status means once checked: success, or its error.
pub open spec fn outcome_of<T>(s: Status, value: T) -> Result<T, Error> {
    if s == Status::Succeeded {
        Ok(value)
    } else {
        Err(error_of(s))
    }
}

impl Error {
    /// The error for a status that is not a success.
    pub fn from_status(s: Status) -> (e: Error)
        ensures
            e == error_of(s),
    {
        match s {
            Status::Timeout => Error::Timeout,
            Status::Eof => Error::Eof,
            _ => Error::Failed,
        }
    }
}

impl Status {
    /// Checks the status: `Ok(value)` on success, the matching error otherwise.
    pub fn to_result<T>(self, value: T) -> (r: Result<T, Error>)
        ensures
            r == outcome_of(self, value),
    {
        if self == Status::Succeeded {
            Ok(value)
        } else {
            Err(Error::from_status(self))
        }
    }

    pub fn is_success(self) -> (r: bool)
        ensures
            r == (self == Status::Succeeded),
    {
        self == Status::Succeeded
    }
}

} // verus!
