use vstd::prelude::*;

pub mod lang;

verus! {

/// Errors surfaced to callers of the detection engine.
#[derive(Debug, PartialEq, Eq)]
pub enum DetectError {
    /// The configured backend name is not one of the recognized backends.
    InvalidBackend(String),
    /// A caller-supplied language name could not be normalized for the
    /// selected backend.
    LanguageNotFound(String),
    /// The allow/deny restriction set is structurally invalid for the
    /// selected backend.
    InvalidRestriction,
    /// Confidence scoring was requested from a backend that lacks it.
    UnsupportedCapability(String),
}

} // verus!
