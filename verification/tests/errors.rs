use hyperscan::constants::{
    HS_ARCH_ERROR, HS_BAD_ALIGN, HS_BAD_ALLOC, HS_COMPILER_ERROR, HS_DB_MODE_ERROR,
    HS_DB_PLATFORM_ERROR, HS_DB_VERSION_ERROR, HS_INVALID, HS_NOMEM, HS_SCAN_TERMINATED,
    HS_SCRATCH_IN_USE, HS_SUCCESS,
};
use hyperscan::errors::{check, Error, ErrorKind, Operation};

#[test]
fn status_codes_have_their_values() {
    assert_eq!(HS_SUCCESS, 0);
    assert_eq!(HS_INVALID, -1);
    assert_eq!(HS_NOMEM, -2);
    assert_eq!(HS_SCAN_TERMINATED, -3);
    assert_eq!(HS_COMPILER_ERROR, -4);
    assert_eq!(HS_DB_VERSION_ERROR, -5);
    assert_eq!(HS_DB_PLATFORM_ERROR, -6);
    assert_eq!(HS_DB_MODE_ERROR, -7);
    assert_eq!(HS_BAD_ALIGN, -8);
    assert_eq!(HS_BAD_ALLOC, -9);
    assert_eq!(HS_SCRATCH_IN_USE, -10);
    assert_eq!(HS_ARCH_ERROR, -11);
}

#[test]
fn each_code_has_its_kind() {
    assert_eq!(ErrorKind::from_code(HS_INVALID), ErrorKind::InvalidArgument);
    assert_eq!(ErrorKind::from_code(HS_NOMEM), ErrorKind::AllocationFailure);
    assert_eq!(ErrorKind::from_code(HS_DB_VERSION_ERROR), ErrorKind::VersionOrPlatformMismatch);
    assert_eq!(ErrorKind::from_code(HS_DB_PLATFORM_ERROR), ErrorKind::VersionOrPlatformMismatch);
    assert_eq!(ErrorKind::from_code(HS_DB_MODE_ERROR), ErrorKind::ModeMismatch);
    assert_eq!(ErrorKind::from_code(HS_SCRATCH_IN_USE), ErrorKind::ScratchInUse);
    assert_eq!(ErrorKind::from_code(HS_ARCH_ERROR), ErrorKind::UnsupportedArchitecture);
}

#[test]
fn codes_without_a_kind_of_their_own_are_other() {
    for code in [HS_COMPILER_ERROR, HS_BAD_ALIGN, HS_BAD_ALLOC, -12, 1, 7, i32::MIN, i32::MAX] {
        assert_eq!(ErrorKind::from_code(code), ErrorKind::Other);
    }
}

#[test]
fn error_keeps_the_status_code() {
    for code in -20..20 {
        let error = Error::backend(Operation::Scan, code);
        assert_eq!(error.code(), Some(code));
        assert_eq!(error.operation(), Operation::Scan);
        assert_eq!(error.kind(), ErrorKind::from_code(code));
        assert_ne!(error.kind(), ErrorKind::InvalidState);
        assert_ne!(error.kind(), ErrorKind::InvalidUtf8);
    }
}

#[test]
fn check_passes_success_only() {
    assert_eq!(check(Operation::AllocScratch, HS_SUCCESS), Ok(()));
    assert_eq!(
        check(Operation::AllocScratch, HS_NOMEM),
        Err(Error {
            kind: ErrorKind::AllocationFailure,
            operation: Operation::AllocScratch,
            code: Some(HS_NOMEM),
        })
    );
    // Outside a scan a report of termination is a failure like any other.
    assert_eq!(
        check(Operation::OpenStream, HS_SCAN_TERMINATED),
        Err(Error {
            kind: ErrorKind::Other,
            operation: Operation::OpenStream,
            code: Some(HS_SCAN_TERMINATED),
        })
    );
    assert_eq!(
        check(Operation::DatabaseInfo, 1),
        Err(Error { kind: ErrorKind::Other, operation: Operation::DatabaseInfo, code: Some(1) })
    );
}

#[test]
fn invalid_state_has_no_code() {
    let error = Error::invalid_state(Operation::ScanStream);
    assert_eq!(error.kind(), ErrorKind::InvalidState);
    assert_eq!(error.operation(), Operation::ScanStream);
    assert_eq!(error.code(), None);
    assert_eq!(
        error,
        Error { kind: ErrorKind::InvalidState, operation: Operation::ScanStream, code: None }
    );
}

#[test]
fn fatal_and_retryable_kinds() {
    let kinds = [
        ErrorKind::InvalidArgument,
        ErrorKind::AllocationFailure,
        ErrorKind::VersionOrPlatformMismatch,
        ErrorKind::ModeMismatch,
        ErrorKind::ScratchInUse,
        ErrorKind::UnsupportedArchitecture,
        ErrorKind::InvalidState,
        ErrorKind::InvalidUtf8,
        ErrorKind::Other,
    ];
    for kind in kinds {
        assert_eq!(
            kind.is_fatal(),
            kind == ErrorKind::VersionOrPlatformMismatch
                || kind == ErrorKind::UnsupportedArchitecture
        );
        assert_eq!(kind.is_retryable(), kind == ErrorKind::AllocationFailure);
        assert!(!kind.description().is_empty());
    }
}

#[test]
fn descriptions_of_the_kinds() {
    assert_eq!(
        ErrorKind::InvalidArgument.description(),
        "a parameter passed to the engine was invalid"
    );
    assert_eq!(ErrorKind::AllocationFailure.description(), "a memory allocation failed");
    assert_eq!(
        ErrorKind::VersionOrPlatformMismatch.description(),
        "the database was built for a different version or platform"
    );
    assert_eq!(
        ErrorKind::ModeMismatch.description(),
        "the database was built for a different mode of operation"
    );
    assert_eq!(ErrorKind::ScratchInUse.description(), "the scratch space was already in use");
    assert_eq!(
        ErrorKind::UnsupportedArchitecture.description(),
        "the host CPU lacks a required instruction set"
    );
    assert_eq!(
        ErrorKind::InvalidState.description(),
        "the operation is not allowed in the current state"
    );
    assert_eq!(ErrorKind::InvalidUtf8.description(), "the text is not valid UTF-8");
    assert_eq!(ErrorKind::Other.description(), "the engine failed");
}

#[test]
fn names_of_the_operations() {
    assert_eq!(Operation::ValidPlatform.name(), "valid_platform");
    assert_eq!(Operation::DatabaseSize.name(), "database_size");
    assert_eq!(Operation::DatabaseInfo.name(), "database_info");
    assert_eq!(Operation::AllocScratch.name(), "alloc_scratch");
    assert_eq!(Operation::CloneScratch.name(), "clone_scratch");
    assert_eq!(Operation::Scan.name(), "scan");
    assert_eq!(Operation::ScanVector.name(), "scan_vector");
    assert_eq!(Operation::OpenStream.name(), "open_stream");
    assert_eq!(Operation::ScanStream.name(), "scan_stream");
    assert_eq!(Operation::CloseStream.name(), "close_stream");
}
