//! The scanning runtime: scratch space, the match callback protocol, the
//! scanners of the three modes and streaming sessions.

pub mod scratch;
pub mod call;
pub mod scan;
pub mod stream;

pub use self::call::{CallModel, Delivery, Report, ScanCall};
pub use self::scan::{
    MatchEvent, Matching, ScanOutcome, StreamAction, StreamEvent, StreamScan, SCAN_BUF_SIZE,
};
pub use self::scratch::{Scratch, ScratchRef};
pub use self::stream::{Stream, StreamModel, StreamRef, StreamState};
