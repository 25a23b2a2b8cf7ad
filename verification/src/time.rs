//! `std::time::Duration`, carried through the library as an opaque value.

use std::time::Duration;

use vstd::prelude::*;

verus! {

/// The duration of `secs` whole seconds, as `Duration::from_secs` builds it.
pub uninterp spec fn duration_from_secs(secs: u64) -> Duration;

/// `Duration::from_secs`: the same number of seconds always gives the same
/// duration; what the duration holds is left unsaid, since `Duration` is an
/// opaque type here.
pub assume_specification[ core::time::Duration::from_secs ](secs: u64) -> (r: Duration)
    ensures
        r == duration_from_secs(secs),
;

/// `Duration` is `Copy`: its `clone` returns the same duration.
pub assume_specification[ <Duration as Clone>::clone ](d: &Duration) -> (r: Duration)
    ensures
        r == *d,
;

/// `Duration`'s `==` (derived: equal seconds and equal nanoseconds), which is
/// equality of the two values.
#[verifier::external_body]
pub(crate) fn same_duration(a: &Duration, b: &Duration) -> (r: bool)
    ensures
        r == (*a == *b),
{
    *a == *b
}

} // verus!
