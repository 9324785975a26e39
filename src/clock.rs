use vstd::prelude::*;

verus! {

/// The monotonic clock's instant, carried through as an opaque value.
#[verifier::external_type_specification]
#[verifier::external_body]
pub struct ExInstant(std::time::Instant);

/// Relies on `std::time::Instant::now`: a fresh reading of the monotonic clock.
/// Nothing is known of the value.
#[verifier::external_body]
pub(crate) fn clock_now() -> (r: std::time::Instant) {
    std::time::Instant::now()
}

/// Relies on `std::time::Instant::elapsed`, read through `Duration::as_nanos`:
/// the nanoseconds from `origin` to now on the monotonic clock (zero, rather
/// than a panic, if the clock seems to have gone back). The value depends on
/// the time of the call, so nothing is stated of it.
#[verifier::external_body]
pub(crate) fn nanos_since(origin: &std::time::Instant) -> (r: u128) {
    origin.elapsed().as_nanos()
}

/// A reading of the clock, in nanoseconds since `origin`, held at `u64::MAX`.
pub(crate) fn ticks_since(origin: &std::time::Instant) -> (r: u64) {
    let n = nanos_since(origin);
    if n > u64::MAX as u128 {
        u64::MAX
    } else {
        n as u64
    }
}

} // verus!
