//! Numeric constants shared with the matching engine.

use vstd::prelude::*;

verus! {

/// Status code returned by every entry point of the matching engine.
pub type HsError = i32;

/// The engine completed normally.
pub const HS_SUCCESS: HsError = 0;

/// A parameter passed to the engine was invalid.
pub const HS_INVALID: HsError = -1;

/// A memory allocation failed.
pub const HS_NOMEM: HsError = -2;

/// The engine was stopped by the match callback.
///
/// The target buffer was scanned in part only: the callback asked for the
/// scan to cease after a match was reported.
pub const HS_SCAN_TERMINATED: HsError = -3;

/// The pattern compiler failed.
pub const HS_COMPILER_ERROR: HsError = -4;

/// The database was built for a different version of the engine.
pub const HS_DB_VERSION_ERROR: HsError = -5;

/// The database was built for a different platform (that is, CPU type).
pub const HS_DB_PLATFORM_ERROR: HsError = -6;

/// The database was built for a different mode of operation: a streaming call
/// was made on a block or vectored database, or the reverse.
pub const HS_DB_MODE_ERROR: HsError = -7;

/// A parameter passed to the engine was not correctly aligned.
pub const HS_BAD_ALIGN: HsError = -8;

/// The memory allocator did not return memory suitably aligned for the
/// largest representable data type on this platform.
pub const HS_BAD_ALLOC: HsError = -9;

/// The scratch region was already in use.
///
/// The engine reports this when it is able to detect that the scratch region
/// it was given is in use by another of its calls. Not every concurrent use
/// is detected: the code is a debugging aid, not a guarantee.
pub const HS_SCRATCH_IN_USE: HsError = -10;

/// The current system does not support the instruction set that the engine
/// requires.
pub const HS_ARCH_ERROR: HsError = -11;

/// Compile mode flag: block scan (non-streaming) database.
pub const HS_MODE_BLOCK: u32 = 1;

/// Compile mode flag: alias for `HS_MODE_BLOCK`.
pub const HS_MODE_NOSTREAM: u32 = 1;

/// Compile mode flag: streaming database.
pub const HS_MODE_STREAM: u32 = 2;

/// Compile mode flag: vectored scanning database.
pub const HS_MODE_VECTORED: u32 = 4;

} // verus!
