//! The failures a session can report.

use vstd::prelude::*;

verus! {

/// Why an operation of the session core failed.
///
/// An absent result that is a normal outcome (no hypothesis yet, no alignment
/// for the active search) is reported as `None`, never as one of these.
#[derive(Clone, Copy, Debug, PartialEq, Eq, Structural)]
pub enum Error {
    /// The engine could not create the resource that was asked for.
    InitializationFailure,
    /// Conflicting settings, an unknown parameter, or a value of the wrong type.
    InvalidConfig,
    /// No search module of that name is registered.
    SearchNotFound,
    /// A search module of that name is already registered.
    DuplicateSearchName,
    /// No search module is active.
    NoActiveSearch,
    /// An utterance operation was invoked in the wrong lifecycle state.
    UsageError,
    /// A file could not be opened, read or written.
    IOFailure,
    /// A string holds a NUL byte, or text from the engine is not UTF-8.
    InvalidString,
    /// A frame of audio does not have the length the operation demands.
    FrameSizeMismatch,
    /// The engine reported a failure while working on valid input.
    EngineFailure,
    /// A counter of the session has reached the limit of its type.
    CounterExhausted,
}

} // verus!
