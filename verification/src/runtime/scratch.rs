//! Scratch space: the working memory that the engine needs for a scan.

use vstd::prelude::*;

use crate::common::database::DatabaseRef;
use crate::constants::{HsError, HS_SUCCESS};
use crate::errors::{status_result, Error, Operation};

verus! {

/// The size of a scratch space of `before` bytes after it was grown and the
/// engine returned `status` and reported `reported` bytes. A failed call
/// leaves the size as it was, and the size never shrinks.
pub open spec fn grown_size(before: usize, status: HsError, reported: usize) -> usize {
    if status == HS_SUCCESS && reported > before {
        reported
    } else {
        before
    }
}

/// Scratch space, borrowed. It records the size that the engine reported for
/// it, which is that of the largest database it was made or grown for.
#[derive(Debug)]
pub struct ScratchRef {
    size: usize,
}

/// Scratch space, owned.
///
/// One scratch space serves one scan at a time. Every scanner takes it by
/// exclusive borrow and holds the borrow until the scan has finished, so two
/// scans that overlap in time cannot share one.
#[derive(Debug)]
pub struct Scratch {
    inner: ScratchRef,
}

impl ScratchRef {
    /// The size of the scratch space in bytes.
    pub closed spec fn spec_size(&self) -> usize {
        self.size
    }

    /// The size of the scratch space in bytes, as the engine last reported it.
    #[verifier::when_used_as_spec(spec_size)]
    pub fn size(&self) -> (size: usize)
        ensures
            size == self.spec_size(),
    {
        self.size
    }

    /// Makes a second scratch space that serves the same databases, from the
    /// status code that the engine returned when it was asked for the copy.
    /// The copy is a value of its own: a scan that holds one of the two leaves
    /// the other free.
    pub fn try_clone(&self, status: HsError) -> (result: Result<Scratch, Error>)
        ensures
            match result {
                Ok(scratch) => status == HS_SUCCESS && scratch.spec_ref().size() == self.size(),
                Err(error) => status != HS_SUCCESS && error == Error::from_status(
                    Operation::CloneScratch,
                    status,
                ),
            },
    {
        if status == HS_SUCCESS {
            Ok(Scratch { inner: ScratchRef { size: self.size } })
        } else {
            Err(Error::backend(Operation::CloneScratch, status))
        }
    }
}

impl<T> DatabaseRef<T> {
    /// Allocates scratch space for the database, from the engine's answer:
    /// the status code that it returned and the size of the scratch space
    /// that it reported.
    pub fn alloc_scratch(&self, status: HsError, size: usize) -> (result: Result<Scratch, Error>)
        ensures
            match result {
                Ok(scratch) => status == HS_SUCCESS && scratch.spec_ref().size() == size,
                Err(error) => status != HS_SUCCESS && error == Error::from_status(
                    Operation::AllocScratch,
                    status,
                ),
            },
    {
        if status == HS_SUCCESS {
            Ok(Scratch { inner: ScratchRef { size } })
        } else {
            Err(Error::backend(Operation::AllocScratch, status))
        }
    }

    /// Enlarges `scratch` in place so that it also serves this database, from
    /// the engine's answer: the status code that it returned and the size of
    /// the scratch space that it reported afterwards.
    ///
    /// The scratch space keeps serving the databases it served before. Its
    /// size only ever grows; when the engine fails, it stays as it was.
    pub fn realloc_scratch(&self, scratch: &mut ScratchRef, status: HsError, size: usize) -> (result:
        Result<(), Error>)
        ensures
            result == status_result(Operation::AllocScratch, status),
            final(scratch).size() == grown_size(old(scratch).size(), status, size),
    {
        if status != HS_SUCCESS {
            return Err(Error::backend(Operation::AllocScratch, status));
        }
        if size > scratch.size {
            scratch.size = size;
        }
        Ok(())
    }
}

impl Scratch {
    /// The scratch space that this value owns.
    pub closed spec fn spec_ref(&self) -> ScratchRef {
        self.inner
    }
}

impl std::ops::Deref for Scratch {
    type Target = ScratchRef;

    fn deref(&self) -> (scratch: &ScratchRef)
        ensures
            *scratch == self.spec_ref(),
    {
        &self.inner
    }
}

impl std::ops::DerefMut for Scratch {
    fn deref_mut(&mut self) -> (scratch: &mut ScratchRef)
        ensures
            *scratch == old(self).spec_ref(),
            final(self).spec_ref() == *final(scratch),
    {
        &mut self.inner
    }
}

} // verus!
