use vstd::prelude::*;

verus! {

/// Typed error a pipeline stage can return.
///
/// Environment-level failures (a cache subdirectory or the artifact file
/// cannot be created, the external tool cannot be started) are treated as
/// fatal by the surrounding program rather than surfaced here: they signal a
/// broken execution environment, not a problem with the user's code.
#[derive(Debug)]
pub enum SniprunError {
    /// The external tool ran but exited with a non-success status; the
    /// payload is its captured standard-error text, surfaced verbatim.
    RuntimeError(String),
}

} // verus!
