//! Structured errors: every public operation returns either a fully
//! populated success value or exactly one of these.

use vstd::prelude::*;

verus! {

/// Which of the three trusted-setup buffers a shape fault concerns.
#[derive(Clone, Copy, Debug, PartialEq, Eq, Structural)]
pub enum SetupBuffer {
    G1Monomial,
    G1Lagrange,
    G2Monomial,
}

/// Why a trusted-setup input fails its static shape invariant. Such inputs
/// never reach the cryptographic backend.
#[derive(Clone, Copy, Debug, PartialEq, Eq, Structural)]
pub enum SetupFault {
    /// The named buffer's byte length is not a multiple of its element size.
    NotAMultiple { buffer: SetupBuffer, element_size: usize, actual_len: usize },
    /// The two G1 buffers encode different element counts.
    MismatchedCounts { monomial_len: usize, lagrange_len: usize },
}

/// Rejection of an untrusted input buffer.
#[derive(Clone, Debug, PartialEq, Eq)]
pub enum ValidationError {
    /// A setup buffer fails a static size or shape invariant.
    MalformedSetup { fault: SetupFault },
    /// The setup bytes are well-shaped but the backend rejects them
    /// (not on curve, wrong point count, or not in Lagrange form).
    BackendRejected { reason: String },
    /// A blob's byte length differs from the fixed protocol blob size.
    WrongBlobLength { expected: usize, actual: usize },
    /// The blob has the right length but the field element at this index
    /// is not a canonical encoding (its value is not below the modulus).
    InvalidEncoding { element_index: usize },
}

/// Failure of a proof computation on inputs that passed validation.
#[derive(Clone, Debug, PartialEq, Eq)]
pub enum ComputeError {
    /// The cryptographic backend reported this non-success status code.
    BackendFailure { code: u32 },
    /// The execution context itself failed (a worker crash or panic),
    /// as opposed to a cryptographic failure.
    ExecutionFailure { reason: String },
}

/// Failure of a whole batch, attributed to one item.
#[derive(Clone, Debug, PartialEq, Eq)]
pub enum BatchError {
    /// The blob at this index failed validation; it is the first such blob.
    Invalid { index: usize, error: ValidationError },
    /// The computation for the blob at this index failed.
    Compute { index: usize, error: ComputeError },
}

} // verus!
