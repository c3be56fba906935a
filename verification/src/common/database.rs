//! Handles to compiled pattern databases.

use vstd::prelude::*;
use vstd::utf8::{decode_utf8, valid_utf8};

use std::marker::PhantomData;

use crate::common::mode::{Block, Mode, ModeKind, Streaming, Vectored};
use crate::constants::{HsError, HS_SUCCESS};
use crate::errors::{Error, ErrorKind, Operation};

verus! {

/// A compiled pattern database, borrowed.
///
/// The compiled matcher itself stays with the engine. The handle carries the
/// one thing the runtime reads of it, the mode, as its type parameter.
#[derive(Debug)]
pub struct DatabaseRef<T> {
    mode: PhantomData<T>,
}

/// A compiled pattern database that can be used to scan data.
///
/// A database never changes once it is built, and it may serve any number of
/// scans at the same time, each with a scratch space of its own.
#[derive(Debug)]
pub struct Database<T> {
    inner: DatabaseRef<T>,
}

/// Block scan (non-streaming) database.
pub type BlockDatabase = Database<Block>;

/// Streaming database.
pub type StreamingDatabase = Database<Streaming>;

/// Vectored scanning database.
pub type VectoredDatabase = Database<Vectored>;

impl<T> Database<T> {
    /// The database that this handle owns.
    pub closed spec fn spec_ref(&self) -> DatabaseRef<T> {
        self.inner
    }
}

impl<T> std::ops::Deref for Database<T> {
    type Target = DatabaseRef<T>;

    fn deref(&self) -> (database: &DatabaseRef<T>)
        ensures
            *database == self.spec_ref(),
    {
        &self.inner
    }
}

impl<T> Database<T> where T: Mode {
    /// The handle of a database that the engine has built for the mode `T`.
    pub fn new() -> (database: Database<T>) {
        Database { inner: DatabaseRef { mode: PhantomData } }
    }

    /// Provides the id of the compiled mode of the database: the compile mode
    /// flag that the engine knows the mode by.
    pub fn id(&self) -> (id: u32)
        ensures
            id == T::spec_kind().id_of(),
    {
        T::kind().id()
    }

    /// Provides the name of the compiled mode of the database.
    pub fn name(&self) -> (name: &'static str)
        ensures
            name@ == T::spec_kind().name_of(),
    {
        T::kind().name()
    }

    /// Provides the compiled mode of the database.
    pub fn mode(&self) -> (mode: ModeKind)
        ensures
            mode == T::spec_kind(),
    {
        T::kind()
    }

    /// The database is a block database.
    pub fn is_block(&self) -> (block: bool)
        ensures
            block == (T::spec_kind() == ModeKind::Block),
    {
        self.mode() == ModeKind::Block
    }

    /// The database is a vectored database.
    pub fn is_vectored(&self) -> (vectored: bool)
        ensures
            vectored == (T::spec_kind() == ModeKind::Vectored),
    {
        self.mode() == ModeKind::Vectored
    }

    /// The database is a streaming database.
    pub fn is_streaming(&self) -> (streaming: bool)
        ensures
            streaming == (T::spec_kind() == ModeKind::Streaming),
    {
        self.mode() == ModeKind::Streaming
    }
}

/// What the engine's answer to a question about the size of a database means:
/// the size on success, else the error of the status code.
pub open spec fn size_result(status: HsError, size: usize) -> Result<usize, Error> {
    if status == HS_SUCCESS {
        Ok(size)
    } else {
        Err(Error::from_status(Operation::DatabaseSize, status))
    }
}

impl<T> DatabaseRef<T> {
    /// Provides the size of the database in bytes, from the engine's answer:
    /// the status code that it returned and the size that it stored.
    pub fn size(&self, status: HsError, size: usize) -> (result: Result<usize, Error>)
        ensures
            result == size_result(status, size),
    {
        if status == HS_SUCCESS {
            Ok(size)
        } else {
            Err(Error::backend(Operation::DatabaseSize, status))
        }
    }

    /// Provides the engine's description of the database, from the engine's
    /// answer: the status code that it returned and the bytes of the text that
    /// it stored, without the terminating zero.
    ///
    /// A failing status code gives its error. Text that is not valid UTF-8
    /// gives an error of kind `InvalidUtf8`. Else the result is the text.
    pub fn info(&self, status: HsError, text: Vec<u8>) -> (result: Result<String, Error>)
        ensures
            status != HS_SUCCESS ==> result == Err::<String, Error>(
                Error::from_status(Operation::DatabaseInfo, status),
            ),
            status == HS_SUCCESS && !valid_utf8(text@) ==> result == Err::<String, Error>(
                Error::local(ErrorKind::InvalidUtf8, Operation::DatabaseInfo),
            ),
            status == HS_SUCCESS && valid_utf8(text@) ==> (result matches Ok(info) && info@
                == decode_utf8(text@)),
    {
        if status != HS_SUCCESS {
            return Err(Error::backend(Operation::DatabaseInfo, status));
        }
        match string_from_utf8(text) {
            Some(info) => Ok(info),
            None => Err(
                Error { kind: ErrorKind::InvalidUtf8, operation: Operation::DatabaseInfo, code: None },
            ),
        }
    }
}

/// `String::from_utf8` of the standard library. The call yields a string
/// exactly when the bytes are valid UTF-8, and the string then holds the
/// characters that the bytes encode.
#[verifier::external_body]
fn string_from_utf8(bytes: Vec<u8>) -> (text: Option<String>)
    ensures
        text is Some <==> valid_utf8(bytes@),
        text matches Some(s) ==> s@ == decode_utf8(bytes@),
{
    match String::from_utf8(bytes) {
        Ok(text) => Some(text),
        Err(_) => None,
    }
}

} // verus!
