use vstd::prelude::*;

verus! {

/// Failures of the transform pipeline. All are local, recoverable errors
/// returned to the caller; no function here panics.
#[derive(Clone, Copy, Debug, PartialEq, Eq, Structural)]
pub enum TransformError {
    /// An aspect-ratio parameter was not strictly positive.
    InvalidConfiguration,
    /// A supplied viewport size had a non-positive component.
    InvalidViewport,
    /// The composed forward matrix has no inverse.
    SingularTransform,
    /// An exact intermediate value left the 64-bit fraction range.
    Overflow,
}

} // verus!
