use std::time::Duration;
use vstd::prelude::*;

verus! {

/// The span of time that lasts the given number of seconds.
pub uninterp spec fn seconds(secs: u64) -> Duration;

/// `Duration::from_secs`: the span that it returns depends on the number of
/// seconds alone.
pub assume_specification[ Duration::from_secs ](secs: u64) -> (duration: Duration)
    ensures
        duration == seconds(secs),
;

} // verus!
