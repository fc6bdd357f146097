use vstd::prelude::*;

verus! {

/// The monotonic clock reading that a timer starts from; opaque to proofs.
#[verifier::external_type_specification]
#[verifier::external_body]
pub struct ExInstant(std::time::Instant);

/// Relies on `Instant::now`: a reading of the monotonic clock. Nothing is
/// known of its value.
pub assume_specification[ std::time::Instant::now ]() -> std::time::Instant;

/// Relies on `Instant::elapsed`: the time passed since the instant, which
/// depends on the clock. It saturates at zero and does not panic.
pub assume_specification[ std::time::Instant::elapsed ](i: &std::time::Instant) -> std::time::Duration;

/// The whole number of nanoseconds that a duration spans.
pub uninterp spec fn duration_nanos(d: std::time::Duration) -> nat;

/// Relies on `Duration::as_nanos`: the total number of whole nanoseconds
/// the duration holds, which depends on the duration alone.
pub assume_specification[ std::time::Duration::as_nanos ](d: &std::time::Duration) -> (r: u128)
    ensures
        r == duration_nanos(*d),
;

} // verus!
