//! The three scanning modes.

use vstd::prelude::*;

use crate::constants::{HS_MODE_BLOCK, HS_MODE_STREAM, HS_MODE_VECTORED};

verus! {

/// The mode that a database is compiled for. It decides which scanner the
/// database may be used with.
#[derive(Clone, Copy, Debug, PartialEq, Eq, Structural)]
pub enum ModeKind {
    /// One contiguous buffer per scan.
    Block,
    /// An open-ended sequence of chunks, with state carried from one to the
    /// next.
    Streaming,
    /// An ordered list of buffers per scan, matched as their concatenation.
    Vectored,
}

impl ModeKind {
    /// The compile mode flag of each mode.
    pub open spec fn id_of(self) -> u32 {
        match self {
            ModeKind::Block => HS_MODE_BLOCK,
            ModeKind::Streaming => HS_MODE_STREAM,
            ModeKind::Vectored => HS_MODE_VECTORED,
        }
    }

    /// The name of each mode.
    pub open spec fn name_of(self) -> Seq<char> {
        match self {
            ModeKind::Block => "Block"@,
            ModeKind::Streaming => "Streaming"@,
            ModeKind::Vectored => "Vectored"@,
        }
    }

    /// The compile mode flag that the engine knows the mode by.
    pub fn id(self) -> (id: u32)
        ensures
            id == self.id_of(),
    {
        match self {
            ModeKind::Block => HS_MODE_BLOCK,
            ModeKind::Streaming => HS_MODE_STREAM,
            ModeKind::Vectored => HS_MODE_VECTORED,
        }
    }

    /// The name of the mode.
    pub fn name(self) -> (name: &'static str)
        ensures
            name@ == self.name_of(),
    {
        match self {
            ModeKind::Block => "Block",
            ModeKind::Streaming => "Streaming",
            ModeKind::Vectored => "Vectored",
        }
    }
}

/// A type that stands for one scanning mode. A database carries its mode as
/// a type parameter, so that only the scanner of that mode is offered on it.
pub trait Mode {
    /// The mode that the type stands for.
    spec fn spec_kind() -> ModeKind;

    /// The mode that the type stands for.
    fn kind() -> (kind: ModeKind)
        ensures
            kind == Self::spec_kind(),
    ;
}

/// Block scan (non-streaming) mode.
#[derive(Debug)]
pub struct Block;

/// Streaming mode.
#[derive(Debug)]
pub struct Streaming;

/// Vectored scanning mode.
#[derive(Debug)]
pub struct Vectored;

impl Mode for Block {
    open spec fn spec_kind() -> ModeKind {
        ModeKind::Block
    }

    fn kind() -> (kind: ModeKind) {
        ModeKind::Block
    }
}

impl Mode for Streaming {
    open spec fn spec_kind() -> ModeKind {
        ModeKind::Streaming
    }

    fn kind() -> (kind: ModeKind) {
        ModeKind::Streaming
    }
}

impl Mode for Vectored {
    open spec fn spec_kind() -> ModeKind {
        ModeKind::Vectored
    }

    fn kind() -> (kind: ModeKind) {
        ModeKind::Vectored
    }
}

/// Distinct modes have distinct flags and distinct names, so either one
/// identifies the mode.
pub proof fn lemma_mode_flags_distinct(a: ModeKind, b: ModeKind)
    ensures
        a.id_of() == b.id_of() <==> a == b,
        a.name_of() == b.name_of() <==> a == b,
{
    reveal_strlit("Block");
    reveal_strlit("Streaming");
    reveal_strlit("Vectored");
    if a != b {
        assert(a.name_of().len() != b.name_of().len() || a.name_of()[0] != b.name_of()[0]);
    }
}

} // verus!
