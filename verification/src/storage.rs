//! The vocabulary of the host's durable files, and what its errors become.

use vstd::prelude::*;

verus! {

/// Why the host refused a call.
#[derive(Clone, Copy, Debug, PartialEq, Eq, Structural)]
pub enum StorageError {
    NotFound,
    AlreadyExists,
    InvalidName,
    InvalidArgument,
    PermissionDenied,
    QuotaExceeded,
    Busy,
    Timeout,
    Unsupported,
    Corrupt,
    Io,
}

/// The kind of an I/O error, as the engine knows it.
#[derive(Clone, Copy, Debug, PartialEq, Eq, Structural)]
pub enum ErrorKind {
    NotFound,
    AlreadyExists,
    InvalidInput,
    PermissionDenied,
    StorageFull,
    WouldBlock,
    TimedOut,
    Unsupported,
    InvalidData,
    Other,
}

/// The failure of an I/O completion: its kind, and the call that failed.
#[derive(Clone, Copy, Debug, PartialEq, Eq)]
pub enum CompletionError {
    IOError(ErrorKind, &'static str),
}

/// The failure of an I/O call.
#[derive(Debug, PartialEq, Eq)]
pub enum LimboError {
    CompletionError(CompletionError),
    InvalidArgument(String),
}

/// How much the host has to make durable.
#[derive(Clone, Copy, Debug, PartialEq, Eq, Structural)]
pub enum Durability {
    Data,
    DataAndMetadata,
    Full,
}

/// How a file is to be opened.
#[derive(Clone, Copy, Debug, PartialEq, Eq, Structural)]
pub struct OpenOptions {
    pub read: bool,
    pub write: bool,
    pub create: bool,
    pub create_new: bool,
    pub delete_on_close: bool,
}

/// What the host tells of a file.
#[derive(Clone, Copy, Debug, PartialEq, Eq, Structural)]
pub struct FileStat {
    pub size: u64,
    pub identity: u64,
}

/// The kind of I/O error that stands for a refusal of the host.
pub open spec fn kind_of(error: StorageError) -> ErrorKind {
    match error {
        StorageError::NotFound => ErrorKind::NotFound,
        StorageError::AlreadyExists => ErrorKind::AlreadyExists,
        StorageError::InvalidName => ErrorKind::InvalidInput,
        StorageError::InvalidArgument => ErrorKind::InvalidInput,
        StorageError::PermissionDenied => ErrorKind::PermissionDenied,
        StorageError::QuotaExceeded => ErrorKind::StorageFull,
        StorageError::Busy => ErrorKind::WouldBlock,
        StorageError::Timeout => ErrorKind::TimedOut,
        StorageError::Unsupported => ErrorKind::Unsupported,
        StorageError::Corrupt => ErrorKind::InvalidData,
        StorageError::Io => ErrorKind::Other,
    }
}

/// The scope of an error that no completion carries.
pub const DURABLE_FILES: &'static str = "durable-files";

/// The failure of an I/O call that the host refused.
pub open spec fn call_error(error: StorageError) -> LimboError {
    LimboError::CompletionError(CompletionError::IOError(kind_of(error), DURABLE_FILES))
}

/// The outcome of an I/O call that the host answered with `reply`.
pub open spec fn call_result<T>(reply: Result<T, StorageError>) -> Result<T, LimboError> {
    match reply {
        Ok(value) => Ok(value),
        Err(error) => Err(call_error(error)),
    }
}

/// The refusals of the host stay apart, except that a name and an argument
/// are both bad input.
pub proof fn refusals_stay_apart(one: StorageError, other: StorageError)
    requires
        kind_of(one) == kind_of(other),
    ensures
        one == other || {
            &&& one is InvalidName || one is InvalidArgument
            &&& other is InvalidName || other is InvalidArgument
        },
{
}

/// The failure of a completion in `scope` that the host refused.
pub fn completion_error(error: StorageError, scope: &'static str) -> (failed: CompletionError)
    ensures
        failed == CompletionError::IOError(kind_of(error), scope),
{
    let kind = match error {
        StorageError::NotFound => ErrorKind::NotFound,
        StorageError::AlreadyExists => ErrorKind::AlreadyExists,
        StorageError::InvalidName | StorageError::InvalidArgument => ErrorKind::InvalidInput,
        StorageError::PermissionDenied => ErrorKind::PermissionDenied,
        StorageError::QuotaExceeded => ErrorKind::StorageFull,
        StorageError::Busy => ErrorKind::WouldBlock,
        StorageError::Timeout => ErrorKind::TimedOut,
        StorageError::Unsupported => ErrorKind::Unsupported,
        StorageError::Corrupt => ErrorKind::InvalidData,
        StorageError::Io => ErrorKind::Other,
    };
    CompletionError::IOError(kind, scope)
}

/// The failure of an I/O call that the host refused.
pub fn map_err(error: StorageError) -> (failed: LimboError)
    ensures
        failed == call_error(error),
{
    LimboError::CompletionError(completion_error(error, DURABLE_FILES))
}

/// The outcome of an I/O call that the host answered with `reply`.
pub fn answered<T>(reply: Result<T, StorageError>) -> (result: Result<T, LimboError>)
    ensures
        result == call_result(reply),
{
    match reply {
        Ok(value) => Ok(value),
        Err(error) => Err(map_err(error)),
    }
}

/// The outcome of a call that the host granted is what the host gave. That of
/// one that it refused is an I/O error of the refusal's kind on durable files.
pub proof fn outcome_is_the_answer<T>(value: T, error: StorageError)
    ensures
        call_result(Ok::<T, StorageError>(value)) == Ok::<T, LimboError>(value),
        call_result(Err::<T, StorageError>(error)) == Err::<T, LimboError>(
            LimboError::CompletionError(CompletionError::IOError(kind_of(error), "durable-files")),
        ),
{
}

} // verus!
