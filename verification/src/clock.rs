//! Points in time, from std. What the clock reads is not known; how two given instants
//! compare, and the time between them, depend on those instants alone and are named.

use std::time::{Duration, Instant};

use vstd::prelude::*;

verus! {

#[verifier::external_type_specification]
#[verifier::external_body]
pub struct ExInstant(Instant);

/// `<Instant as Clone>::clone`: `Instant` is `Copy`, so the clone is the same instant.
pub assume_specification[ <Instant as Clone>::clone ](instant: &Instant) -> (copy: Instant)
    ensures
        copy == *instant,
;

/// `Instant::now`.
#[verifier::external_body]
pub(crate) fn now() -> Instant {
    Instant::now()
}

/// The span of `count` seconds, as `Duration::from_secs` gives it.
pub uninterp spec fn span_of_seconds(count: u64) -> Duration;

/// `start` moved on by `span`, as `Instant::checked_add` gives it: `None` when the result
/// cannot be represented.
pub uninterp spec fn shifted(start: Instant, span: Duration) -> Option<Instant>;

/// `Duration::from_secs`: the span of `count` seconds, which depends on `count` alone.
#[verifier::external_body]
pub(crate) fn seconds(count: u64) -> (span: Duration)
    ensures
        span == span_of_seconds(count),
{
    Duration::from_secs(count)
}

/// `Instant::checked_add`: `start` moved on by `span`, or `None` when that instant cannot
/// be represented; it depends on the two arguments alone.
#[verifier::external_body]
pub(crate) fn later_by(start: Instant, span: Duration) -> (later: Option<Instant>)
    ensures
        later == shifted(start, span),
{
    start.checked_add(span)
}

/// Whether `moment` is the same instant as `reference` or a later one, as std's order on
/// `Instant` has it.
pub uninterp spec fn at_or_after(moment: Instant, reference: Instant) -> bool;

/// The time from `earlier` to `later` (zero when `earlier` is the later one), as
/// `Instant::duration_since` gives it.
pub uninterp spec fn span_between(later: Instant, earlier: Instant) -> Duration;

/// `Instant >= Instant`: the comparison of two given instants, which depends on them alone.
#[verifier::external_body]
pub(crate) fn not_before(moment: Instant, reference: Instant) -> (later: bool)
    ensures
        later == at_or_after(moment, reference),
{
    moment >= reference
}

/// `Instant::duration_since`: the time between two given instants, which depends on them
/// alone.
#[verifier::external_body]
pub(crate) fn duration_since(later: Instant, earlier: Instant) -> (span: Duration)
    ensures
        span == span_between(later, earlier),
{
    later.duration_since(earlier)
}

} // verus!
