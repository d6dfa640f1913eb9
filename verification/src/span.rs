//! Lengths of time.

use vstd::prelude::*;

verus! {

/// How long a `std::time::Duration` is, in nanoseconds.
pub uninterp spec fn nanos(duration: std::time::Duration) -> nat;

/// `std::time::Duration::from_secs` makes a duration of so many whole seconds.
pub assume_specification[ std::time::Duration::from_secs ](secs: u64) -> (r: std::time::Duration)
    ensures
        nanos(r) == secs * 1_000_000_000,
;

/// `std::time::Duration::is_zero` tells whether the duration spans no time.
pub assume_specification[ std::time::Duration::is_zero ](this: &std::time::Duration) -> (r: bool)
    ensures
        r == (nanos(*this) == 0),
;

} // verus!
