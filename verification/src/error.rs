//! The error values that metadata and process operations report.

use vstd::prelude::*;

verus! {

/// Why an operation failed.
///
/// Plain native failures (permission denied, a handle that cannot be opened)
/// are collapsed into a boolean `false` by the operations that the native
/// model reports them for; this type carries the two causes that must stay
/// distinguishable.
#[derive(Clone, Copy, Debug, PartialEq, Eq, Structural)]
pub enum SystemError {
    /// The path or process the operation names does not exist.
    NotFound,
    /// The operation has no meaning on the platform the state models, so it
    /// can never be attempted there.  Distinct from an attempted call that
    /// failed.
    Unsupported,
}

} // verus!
