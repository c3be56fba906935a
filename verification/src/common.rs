//! Database handles and the scanning mode that each one is compiled for.

pub mod mode;
pub mod database;
pub mod platform;

pub use self::database::{BlockDatabase, Database, DatabaseRef, StreamingDatabase, VectoredDatabase};
pub use self::mode::{Block, Mode, ModeKind, Streaming, Vectored};
pub use self::platform::PlatformCheck;
