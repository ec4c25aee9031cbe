//! Durations and their conversion to controller ticks.

use core::time::Duration;
use vstd::prelude::*;

verus! {

/// The total number of nanoseconds that a duration spans, as
/// `core::time::Duration::as_nanos` reports it.
pub uninterp spec fn duration_nanos(d: Duration) -> u128;

/// Whole seconds held by a span of `nanos` nanoseconds.
pub open spec fn whole_secs(nanos: nat) -> nat {
    nanos / 1_000_000_000
}

/// The fractional part of a span of `nanos` nanoseconds, in whole microseconds.
pub open spec fn subsec_micros(nanos: nat) -> nat {
    (nanos % 1_000_000_000) / 1_000
}

/// Number of controller ticks of 0.625 ms in a span of `nanos` nanoseconds:
/// 1600 per whole second, plus one per 625 whole microseconds of the rest.
pub open spec fn ticks(nanos: nat) -> nat {
    1600 * whole_secs(nanos) + subsec_micros(nanos) / 625
}

/// Counting ticks by seconds and microseconds is the same as dividing the
/// whole span by the length of one tick, 625000 ns, and dropping the remainder.
pub proof fn lemma_ticks_is_quotient(nanos: nat)
    ensures
        ticks(nanos) == nanos / 625_000,
{
}

/// A longer span never has fewer ticks.
pub proof fn lemma_ticks_monotonic(a: nat, b: nat)
    requires
        a <= b,
    ensures
        ticks(a) <= ticks(b),
{
    lemma_ticks_is_quotient(a);
    lemma_ticks_is_quotient(b);
}

/// `core::time::Duration::as_nanos`: the whole duration in nanoseconds. This is
/// the value that all other statements about a duration are made over.
pub assume_specification[ Duration::as_nanos ](d: &Duration) -> (r: u128)
    ensures
        r == duration_nanos(*d),
;

/// `core::time::Duration::as_secs`: the number of whole seconds in the duration.
pub assume_specification[ Duration::as_secs ](d: &Duration) -> (r: u64)
    ensures
        r == whole_secs(duration_nanos(*d) as nat),
;

/// `core::time::Duration::subsec_micros`: the part of the duration below one
/// second, in whole microseconds, so always under one million.
pub assume_specification[ Duration::subsec_micros ](d: &Duration) -> (r: u32)
    ensures
        r == subsec_micros(duration_nanos(*d) as nat),
;

} // verus!
