//! Whether the host can run the engine at all.

use vstd::prelude::*;

use crate::constants::HsError;
use crate::errors::{status_result, Error, Operation};

verus! {

/// The answer to the question whether the host has the instruction set that
/// the engine needs.
///
/// The engine is asked once. The first answer is kept and given again from
/// then on: the host does not change while the program runs, and a host that
/// cannot run the engine is a fatal condition, not one to probe before every
/// scan.
#[derive(Debug)]
pub struct PlatformCheck {
    verdict: Option<Result<(), Error>>,
}

impl PlatformCheck {
    /// The answer that is kept, if the engine has been asked.
    pub closed spec fn spec_verdict(&self) -> Option<Result<(), Error>> {
        self.verdict
    }

    /// The answer kept after the engine returned `status`: the one that was
    /// kept before, if there was one, else what the status code means.
    pub open spec fn recorded(before: Option<Result<(), Error>>, status: HsError) -> Result<
        (),
        Error,
    > {
        match before {
            Some(verdict) => verdict,
            None => status_result(Operation::ValidPlatform, status),
        }
    }

    /// A check that has not asked the engine yet.
    pub fn new() -> (check: PlatformCheck)
        ensures
            check.verdict() is None,
    {
        PlatformCheck { verdict: None }
    }

    /// The answer that is kept, if the engine has been asked.
    #[verifier::when_used_as_spec(spec_verdict)]
    pub fn verdict(&self) -> (verdict: Option<Result<(), Error>>)
        ensures
            verdict == self.spec_verdict(),
    {
        self.verdict
    }

    /// Whether the engine still has to be asked.
    pub fn needs_probe(&self) -> (needed: bool)
        ensures
            needed == self.verdict() is None,
    {
        self.verdict.is_none()
    }

    /// Takes the status code that the engine returned when it was asked
    /// whether the host is supported, and gives the answer that holds from now
    /// on. Only the first status code counts.
    pub fn record(&mut self, status: HsError) -> (verdict: Result<(), Error>)
        ensures
            verdict == PlatformCheck::recorded(old(self).verdict(), status),
            final(self).verdict() == Some(verdict),
    {
        match self.verdict {
            Some(verdict) => verdict,
            None => {
                let verdict = crate::errors::check(Operation::ValidPlatform, status);
                self.verdict = Some(verdict);
                verdict
            },
        }
    }
}

} // verus!
