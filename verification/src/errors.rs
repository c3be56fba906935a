//! Errors of the runtime, and the fixed table that turns the engine's status
//! codes into them.

use vstd::prelude::*;

use crate::constants::{
    HsError, HS_ARCH_ERROR, HS_DB_MODE_ERROR, HS_DB_PLATFORM_ERROR, HS_DB_VERSION_ERROR,
    HS_INVALID, HS_NOMEM, HS_SCRATCH_IN_USE, HS_SUCCESS,
};

verus! {

/// What went wrong, independent of the engine's numbering.
#[derive(Clone, Copy, Debug, PartialEq, Eq, Structural)]
pub enum ErrorKind {
    /// The call was malformed: an unusable scratch space, for instance.
    InvalidArgument,
    /// The engine ran out of memory.
    AllocationFailure,
    /// The database was built for another version of the engine or for
    /// another CPU feature set than the one executing it.
    VersionOrPlatformMismatch,
    /// A streaming call was made on a block or vectored database, or the
    /// reverse.
    ModeMismatch,
    /// The engine noticed that the scratch space was already in use. The
    /// detection is best effort and no substitute for synchronisation.
    ScratchInUse,
    /// The host lacks the instruction set that the engine needs.
    UnsupportedArchitecture,
    /// The operation is not allowed in the state that the object is in.
    InvalidState,
    /// The engine's text is not valid UTF-8.
    InvalidUtf8,
    /// A failure of the engine that has no kind of its own.
    Other,
}

impl ErrorKind {
    /// The kind that a status code of the engine stands for.
    ///
    /// Only failures have a kind: the table is not meant for `HS_SUCCESS`, nor,
    /// after a scan, for `HS_SCAN_TERMINATED`.
    pub open spec fn of(code: HsError) -> ErrorKind {
        if code == HS_INVALID {
            ErrorKind::InvalidArgument
        } else if code == HS_NOMEM {
            ErrorKind::AllocationFailure
        } else if code == HS_DB_VERSION_ERROR || code == HS_DB_PLATFORM_ERROR {
            ErrorKind::VersionOrPlatformMismatch
        } else if code == HS_DB_MODE_ERROR {
            ErrorKind::ModeMismatch
        } else if code == HS_SCRATCH_IN_USE {
            ErrorKind::ScratchInUse
        } else if code == HS_ARCH_ERROR {
            ErrorKind::UnsupportedArchitecture
        } else {
            ErrorKind::Other
        }
    }

    /// Whether an error of this kind rules out any further use of the
    /// database on this host.
    pub open spec fn fatal(self) -> bool {
        self == ErrorKind::VersionOrPlatformMismatch || self == ErrorKind::UnsupportedArchitecture
    }

    /// Whether repeating the failed call can succeed once the caller has
    /// changed something outside the runtime (freed memory).
    pub open spec fn retryable(self) -> bool {
        self == ErrorKind::AllocationFailure
    }

    /// The words that describe each kind to a reader.
    pub open spec fn description_of(self) -> Seq<char> {
        match self {
            ErrorKind::InvalidArgument => "a parameter passed to the engine was invalid"@,
            ErrorKind::AllocationFailure => "a memory allocation failed"@,
            ErrorKind::VersionOrPlatformMismatch =>
                "the database was built for a different version or platform"@,
            ErrorKind::ModeMismatch => "the database was built for a different mode of operation"@,
            ErrorKind::ScratchInUse => "the scratch space was already in use"@,
            ErrorKind::UnsupportedArchitecture => "the host CPU lacks a required instruction set"@,
            ErrorKind::InvalidState => "the operation is not allowed in the current state"@,
            ErrorKind::InvalidUtf8 => "the text is not valid UTF-8"@,
            ErrorKind::Other => "the engine failed"@,
        }
    }

    /// The kind that a status code of the engine stands for.
    pub fn from_code(code: HsError) -> (kind: ErrorKind)
        ensures
            kind == ErrorKind::of(code),
    {
        if code == HS_INVALID {
            ErrorKind::InvalidArgument
        } else if code == HS_NOMEM {
            ErrorKind::AllocationFailure
        } else if code == HS_DB_VERSION_ERROR || code == HS_DB_PLATFORM_ERROR {
            ErrorKind::VersionOrPlatformMismatch
        } else if code == HS_DB_MODE_ERROR {
            ErrorKind::ModeMismatch
        } else if code == HS_SCRATCH_IN_USE {
            ErrorKind::ScratchInUse
        } else if code == HS_ARCH_ERROR {
            ErrorKind::UnsupportedArchitecture
        } else {
            ErrorKind::Other
        }
    }

    /// True for the kinds after which the database cannot be used on this
    /// host at all.
    pub fn is_fatal(self) -> (fatal: bool)
        ensures
            fatal == self.fatal(),
    {
        match self {
            ErrorKind::VersionOrPlatformMismatch | ErrorKind::UnsupportedArchitecture => true,
            _ => false,
        }
    }

    /// True for the one kind that the caller may sensibly try again. The
    /// runtime itself never retries.
    pub fn is_retryable(self) -> (retryable: bool)
        ensures
            retryable == self.retryable(),
    {
        match self {
            ErrorKind::AllocationFailure => true,
            _ => false,
        }
    }

    /// A description fit for a log line.
    pub fn description(self) -> (text: &'static str)
        ensures
            text@ == self.description_of(),
    {
        match self {
            ErrorKind::InvalidArgument => "a parameter passed to the engine was invalid",
            ErrorKind::AllocationFailure => "a memory allocation failed",
            ErrorKind::VersionOrPlatformMismatch =>
                "the database was built for a different version or platform",
            ErrorKind::ModeMismatch => "the database was built for a different mode of operation",
            ErrorKind::ScratchInUse => "the scratch space was already in use",
            ErrorKind::UnsupportedArchitecture => "the host CPU lacks a required instruction set",
            ErrorKind::InvalidState => "the operation is not allowed in the current state",
            ErrorKind::InvalidUtf8 => "the text is not valid UTF-8",
            ErrorKind::Other => "the engine failed",
        }
    }
}

/// The operation of the runtime during which an error arose.
#[derive(Clone, Copy, Debug, PartialEq, Eq, Structural)]
pub enum Operation {
    /// Asking the engine whether the host is supported.
    ValidPlatform,
    /// Asking the engine for the size of a database.
    DatabaseSize,
    /// Asking the engine to describe a database.
    DatabaseInfo,
    /// Allocating scratch space for a database, or growing it.
    AllocScratch,
    /// Cloning scratch space.
    CloneScratch,
    /// Scanning one buffer.
    Scan,
    /// Scanning a sequence of buffers.
    ScanVector,
    /// Opening a streaming session.
    OpenStream,
    /// Feeding a chunk to a streaming session.
    ScanStream,
    /// Closing a streaming session.
    CloseStream,
}

impl Operation {
    /// The name of each operation.
    pub open spec fn name_of(self) -> Seq<char> {
        match self {
            Operation::ValidPlatform => "valid_platform"@,
            Operation::DatabaseSize => "database_size"@,
            Operation::DatabaseInfo => "database_info"@,
            Operation::AllocScratch => "alloc_scratch"@,
            Operation::CloneScratch => "clone_scratch"@,
            Operation::Scan => "scan"@,
            Operation::ScanVector => "scan_vector"@,
            Operation::OpenStream => "open_stream"@,
            Operation::ScanStream => "scan_stream"@,
            Operation::CloseStream => "close_stream"@,
        }
    }

    /// The name under which the operation appears in messages.
    pub fn name(self) -> (text: &'static str)
        ensures
            text@ == self.name_of(),
    {
        match self {
            Operation::ValidPlatform => "valid_platform",
            Operation::DatabaseSize => "database_size",
            Operation::DatabaseInfo => "database_info",
            Operation::AllocScratch => "alloc_scratch",
            Operation::CloneScratch => "clone_scratch",
            Operation::Scan => "scan",
            Operation::ScanVector => "scan_vector",
            Operation::OpenStream => "open_stream",
            Operation::ScanStream => "scan_stream",
            Operation::CloseStream => "close_stream",
        }
    }
}

/// An error of the runtime: its kind, the operation that failed and, where the
/// engine reported the failure, the engine's own status code.
#[derive(Clone, Copy, Debug, PartialEq, Eq)]
pub struct Error {
    /// What went wrong.
    pub kind: ErrorKind,
    /// The operation that failed.
    pub operation: Operation,
    /// The status code that the engine returned, unchanged, or `None` for an
    /// error that the runtime found by itself.
    pub code: Option<HsError>,
}

impl Error {
    /// The error that a failing status code of the engine stands for.
    pub open spec fn from_status(operation: Operation, code: HsError) -> Error {
        Error { kind: ErrorKind::of(code), operation, code: Some(code) }
    }

    /// The error of an operation that the runtime refused by itself.
    pub open spec fn local(kind: ErrorKind, operation: Operation) -> Error {
        Error { kind, operation, code: None }
    }

    /// The error for a failing status code that the engine returned from
    /// `operation`. The code itself is kept as it came.
    pub fn backend(operation: Operation, code: HsError) -> (error: Error)
        ensures
            error == Error::from_status(operation, code),
    {
        Error { kind: ErrorKind::from_code(code), operation, code: Some(code) }
    }

    /// The error for an operation on an object whose state does not allow it.
    pub fn invalid_state(operation: Operation) -> (error: Error)
        ensures
            error == Error::local(ErrorKind::InvalidState, operation),
    {
        Error { kind: ErrorKind::InvalidState, operation, code: None }
    }

    /// What went wrong.
    pub fn kind(&self) -> (kind: ErrorKind)
        ensures
            kind == self.kind,
    {
        self.kind
    }

    /// The operation that failed.
    pub fn operation(&self) -> (operation: Operation)
        ensures
            operation == self.operation,
    {
        self.operation
    }

    /// The engine's status code, if the engine reported the failure.
    pub fn code(&self) -> (code: Option<HsError>)
        ensures
            code == self.code,
    {
        self.code
    }
}

/// What a status code means after an operation that either succeeds or fails:
/// `HS_SUCCESS` is success, every other code the error that the table gives.
pub open spec fn status_result(operation: Operation, status: HsError) -> Result<(), Error> {
    if status == HS_SUCCESS {
        Ok(())
    } else {
        Err(Error::from_status(operation, status))
    }
}

/// Turns the status code that the engine returned from `operation` into a
/// result.
pub fn check(operation: Operation, status: HsError) -> (result: Result<(), Error>)
    ensures
        result == status_result(operation, status),
{
    if status == HS_SUCCESS {
        Ok(())
    } else {
        Err(Error::backend(operation, status))
    }
}

/// The runtime makes up no status codes: an error made from a status code
/// carries that code and the operation, and its kind is never one of those
/// that the runtime keeps for the errors it finds by itself.
pub proof fn lemma_error_keeps_status(operation: Operation, code: HsError)
    ensures
        Error::from_status(operation, code).code == Some(code),
        Error::from_status(operation, code).operation == operation,
        Error::from_status(operation, code).kind != ErrorKind::InvalidState,
        Error::from_status(operation, code).kind != ErrorKind::InvalidUtf8,
{
}

} // verus!
