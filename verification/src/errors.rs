//! The bridge's error taxonomy.
//!
//! Every failure that reaches a caller is one of these variants; nothing is
//! retried and no partial results are produced. Each variant carries the
//! human-readable description that accompanied the failure.

use vstd::prelude::*;

verus! {

/// One error of the bridge.
///
/// - `LockFailure`: the mutual-exclusion primitive guarding the engine was
///   poisoned by a prior holder.
/// - `EngineRuntimeError`: any failure originating inside the engine (script
///   exception, compile error, timeout, heap exceeded), carried with the
///   engine's own message text.
/// - `ValueNotFound`: a named global lookup failed; distinct from
///   `EngineRuntimeError` so callers can branch on missing-vs-other.
/// - `FileNotFound`: a module was loaded from a path that does not exist.
/// - `NotADirectory`: a directory operation targeted a non-directory.
/// - `InvalidArgument`: a value could not be marshalled into the intermediate
///   representation (unsupported shape).
/// - `InvalidState`: a stepper's outcome was queried before completion.
#[derive(Debug)]
pub enum BridgeError {
    LockFailure(String),
    EngineRuntimeError(String),
    ValueNotFound(String),
    FileNotFound(String),
    NotADirectory(String),
    InvalidArgument(String),
    InvalidState(String),
}

impl BridgeError {
    /// The description carried by the error, as a sequence of characters.
    pub open spec fn text(self) -> Seq<char> {
        match self {
            BridgeError::LockFailure(m) => m@,
            BridgeError::EngineRuntimeError(m) => m@,
            BridgeError::ValueNotFound(m) => m@,
            BridgeError::FileNotFound(m) => m@,
            BridgeError::NotADirectory(m) => m@,
            BridgeError::InvalidArgument(m) => m@,
            BridgeError::InvalidState(m) => m@,
        }
    }

    /// Returns the description carried by the error.
    pub fn message(&self) -> (r: String)
        ensures
            r@ == self.text(),
    {
        match self {
            BridgeError::LockFailure(m) => m.clone(),
            BridgeError::EngineRuntimeError(m) => m.clone(),
            BridgeError::ValueNotFound(m) => m.clone(),
            BridgeError::FileNotFound(m) => m.clone(),
            BridgeError::NotADirectory(m) => m.clone(),
            BridgeError::InvalidArgument(m) => m.clone(),
            BridgeError::InvalidState(m) => m.clone(),
        }
    }
}

} // verus!
