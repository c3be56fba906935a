//! The names that most users of the runtime need.

pub use crate::common::{
    Block, BlockDatabase, Database, DatabaseRef, Mode, ModeKind, Streaming, StreamingDatabase,
    Vectored, VectoredDatabase,
};
pub use crate::errors::{Error, ErrorKind, Operation};
pub use crate::runtime::{
    MatchEvent, Matching, ScanCall, ScanOutcome, Scratch, ScratchRef, Stream, StreamAction,
    StreamEvent, StreamRef, StreamScan, StreamState,
};
