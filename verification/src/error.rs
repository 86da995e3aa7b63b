//! Typed failure conditions surfaced to the caller.

use vstd::prelude::*;

verus! {

/// Everything that can go wrong in the simulation core.
///
/// `InvalidConfiguration` is fatal and raised at construction time only;
/// `SingularInnovationCovariance` and `InsufficientHistory` are recoverable
/// per-tick conditions.
#[derive(Clone, Copy, Debug, PartialEq, Eq, Structural)]
pub enum SimError {
    /// A physical parameter (wheelbase, step time, maximum steering angle,
    /// vehicle size) is not positive, or a noise matrix entry is outside the
    /// representable range.
    InvalidConfiguration,
    /// The innovation covariance of an update step is not invertible; the
    /// update is skipped and the predicted estimate stands.
    SingularInnovationCovariance,
    /// A statistic over the sensor history was requested before at least two
    /// samples exist.
    InsufficientHistory,
}

} // verus!
