use vstd::prelude::*;

verus! {

/// The failure taxonomy every fallible operation of the library reports.
#[derive(Debug, PartialEq, Eq)]
pub enum Error {
    /// The backend operation failed and produced no actionable diagnostic:
    /// an allocation failure, a missing queue, an ambiguous or missing
    /// kernel entry point, a malformed pipeline.
    Failed,
    /// Kernel source or pipeline construction failed and the backend
    /// supplied a human-readable message, propagated verbatim.
    CompileFailed(String),
}

} // verus!
