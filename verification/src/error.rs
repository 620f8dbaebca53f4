use vstd::prelude::*;

verus! {

/// The reasons a packet cannot be parsed.
#[derive(Debug, Clone, Copy, PartialEq, Eq)]
pub enum PacketParseError {
    MalformedCommand,
}

/// Errors a packet handler reports; `E` is the target's own error type.
#[derive(Debug, Clone, PartialEq, Eq)]
pub enum Error<E> {
    /// The target reported a fatal error.
    TargetError(E),
    /// The target reported a recoverable error, with this error code.
    NonFatalError(u8),
    /// A multi-threaded target reported no active thread.
    NoActiveThreads,
    /// The packet made no sense in this context.
    PacketUnexpected,
    /// A value did not fit the target architecture.
    TargetMismatch,
    /// The target reported more data than the buffer holds.
    PacketBufferOverflow,
    /// The packet could not be parsed.
    PacketParse(PacketParseError),
}

/// What a target operation may fail with.
#[derive(Debug, Clone, PartialEq, Eq)]
pub enum TargetError<E> {
    /// A recoverable error without a code.
    NonFatal,
    /// A recoverable error with an errno-style code.
    Errno(u8),
    /// An unrecoverable error.
    Fatal(E),
}

/// The error code sent for a recoverable error that carries none (`EREMOTEIO`).
pub const NON_FATAL_CODE: u8 = 121;

/// How a target error surfaces from a handler.
pub open spec fn target_error_to_error<E>(e: TargetError<E>) -> Error<E> {
    match e {
        TargetError::NonFatal => Error::NonFatalError(NON_FATAL_CODE),
        TargetError::Errno(code) => Error::NonFatalError(code),
        TargetError::Fatal(e) => Error::TargetError(e),
    }
}

/// The spec of [`handle_error`] on a whole result.
pub open spec fn handled<T, E>(r: Result<T, TargetError<E>>) -> Result<T, Error<E>> {
    match r {
        Ok(t) => Ok(t),
        Err(e) => Err(target_error_to_error(e)),
    }
}

/// Turns the result of a target operation into a handler result: a fatal
/// error is passed on, a recoverable one becomes an error code for the client.
pub fn handle_error<T, E>(r: Result<T, TargetError<E>>) -> (out: Result<T, Error<E>>)
    ensures
        out == handled(r),
{
    match r {
        Ok(t) => Ok(t),
        Err(TargetError::NonFatal) => Err(Error::NonFatalError(NON_FATAL_CODE)),
        Err(TargetError::Errno(code)) => Err(Error::NonFatalError(code)),
        Err(TargetError::Fatal(e)) => Err(Error::TargetError(e)),
    }
}

/// Only a fatal target error reaches the caller as a target error; every
/// recoverable one becomes an error code for the client.
pub proof fn law_only_fatal_errors_are_fatal<E>(e: TargetError<E>)
    ensures
        target_error_to_error(e) is TargetError <==> e is Fatal,
        !(e is Fatal) ==> target_error_to_error(e) is NonFatalError,
{
}

} // verus!
