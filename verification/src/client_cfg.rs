use vstd::prelude::*;
use std::time::Duration;

verus! {

/// `Clone` of `std::time::Duration`, a `Copy` type: the copy is the same span of time.
pub assume_specification[ <Duration as Clone>::clone ](d: &Duration) -> (r: Duration)
    ensures
        r == *d,
;

/// Where a client connects and how often it pings.
#[derive(Clone, Default)]
pub struct ClientConfig {
    pub url: String,
    /// disables ping if 0
    pub ping_interval: Duration,
}

} // verus!
