//! The ways in which the binding reports failure.

use libc::c_int;
use vstd::prelude::*;

verus! {

/// No handle could be made.
#[derive(Debug, Clone, Copy, PartialEq, Eq, Structural)]
pub enum ConstructionError {
    /// The definition holds a NUL byte, so it cannot be handed over as a C string.
    InteriorNul,
    /// The engine answered with the null address.
    NullHandle,
}

/// The caller broke the rules of the binding. No call reaches the engine.
#[derive(Debug, Clone, Copy, PartialEq, Eq, Structural)]
pub enum ContractViolation {
    /// The coordinate sequences of a batch differ in length.
    LengthMismatch,
    /// A handle was used after its release.
    Released,
    /// The batch holds more points than the engine's point count can express.
    TooManyPoints,
}

/// A call on a handle is planned only while the handle is live.
pub open spec fn when_live<T>(live: bool, call: T) -> Result<T, ContractViolation> {
    if live {
        Ok(call)
    } else {
        Err(ContractViolation::Released)
    }
}

/// The engine refused a transform. The code is the engine's own and is not
/// interpreted here.
#[derive(Debug, Clone, Copy, PartialEq, Eq, Structural)]
pub struct TransformError {
    pub code: c_int,
}

} // verus!
