//! Verified runtime front-end for a precompiled multi-pattern matcher.
//!
//! The matching engine itself is a foreign component. This crate holds
//! everything the runtime decides around it: which values are handed to the
//! engine for each kind of scan, how a reported match reaches the caller's
//! callback and what the callback's answer tells the engine, how the engine's
//! status codes become results and errors, and the life cycle of scratch
//! space and streaming sessions. Each operation is split at the engine call:
//! one function prepares the call, the embedding program performs it, and a
//! second function turns what the engine reported into the result.

pub mod constants;
pub mod errors;
pub mod common;
pub mod runtime;
pub mod prelude;
