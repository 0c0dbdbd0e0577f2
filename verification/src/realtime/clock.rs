//! Spans of time and points on the monotonic clock.
use core::time::Duration;
use std::time::Instant;
use vstd::prelude::*;

verus! {

/// A point on the monotonic clock. It is opaque here: [`instant_nanos`] says where it lies.
#[verifier::external_type_specification]
#[verifier::external_body]
pub struct ExInstant(Instant);

/// The length of a span, in nanoseconds: what `Duration::as_nanos` returns.
pub uninterp spec fn duration_nanos(d: Duration) -> nat;

/// Where a point lies on the monotonic clock, in nanoseconds from the clock's own origin.
pub uninterp spec fn instant_nanos(i: Instant) -> int;

/// The longest span: the seconds of a `u64` and the nanoseconds below one more.
pub const MAX_NANOS: u128 = 18_446_744_073_709_551_615_999_999_999;

/// `Duration::as_nanos`: the length of the span.
#[verifier::external_body]
pub(crate) fn nanos_of(d: Duration) -> (r: u128)
    ensures
        r == duration_nanos(d),
        r <= MAX_NANOS,
{
    d.as_nanos()
}

/// `Duration::new`: the given seconds and nanoseconds.
#[verifier::external_body]
fn duration_new(secs: u64, nanos: u32) -> (r: Duration)
    requires
        nanos < 1_000_000_000,
    ensures
        duration_nanos(r) == secs * 1_000_000_000 + nanos,
{
    Duration::new(secs, nanos)
}

/// `Instant::saturating_duration_since`: the span from the earlier point to the later one, or
/// none where the order is the other way round.
#[verifier::external_body]
pub(crate) fn since(later: Instant, earlier: Instant) -> (r: Duration)
    ensures
        duration_nanos(r) == (if instant_nanos(later) >= instant_nanos(earlier) {
            instant_nanos(later) - instant_nanos(earlier)
        } else {
            0
        }),
{
    later.saturating_duration_since(earlier)
}

/// Whether the clock has a point there. How far it reaches depends on the machine.
pub open spec fn expressible(nanos: int) -> bool {
    exists|i: Instant| #[trigger] instant_nanos(i) == nanos
}

/// `Instant::checked_add`: the point that lies the span later; none exactly where the clock has
/// no such point.
#[verifier::external_body]
pub(crate) fn later_by(i: Instant, d: Duration) -> (r: Option<Instant>)
    ensures
        r is Some <==> expressible(instant_nanos(i) + duration_nanos(d)),
        r matches Some(j) ==> instant_nanos(j) == instant_nanos(i) + duration_nanos(d),
{
    i.checked_add(d)
}

/// A span of a number of nanoseconds.
pub fn from_nanos(nanos: u128) -> (r: Duration)
    requires
        nanos <= MAX_NANOS,
    ensures
        duration_nanos(r) == nanos,
{
    duration_new((nanos / 1_000_000_000) as u64, (nanos % 1_000_000_000) as u32)
}

/// A span of a number of milliseconds.
pub fn from_millis(millis: u64) -> (r: Duration)
    ensures
        duration_nanos(r) == millis * 1_000_000,
{
    from_nanos(millis as u128 * 1_000_000)
}

/// A span of a number of seconds.
pub fn from_secs(secs: u64) -> (r: Duration)
    ensures
        duration_nanos(r) == secs * 1_000_000_000,
{
    duration_new(secs, 0)
}

} // verus!
