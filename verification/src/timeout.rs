use vstd::prelude::*;

verus! {

/// A length of time, in whole milliseconds.
#[derive(Debug, Clone, Copy, PartialEq, Eq, Structural)]
pub struct Timeout {
    pub millis: u64,
}

impl Timeout {
    /// The timeout of `millis` milliseconds.
    pub fn from_millis(millis: u64) -> (t: Timeout)
        ensures
            t.millis == millis,
    {
        Timeout { millis }
    }

    /// The number of milliseconds in this timeout.
    pub fn as_millis(&self) -> (ms: u64)
        ensures
            ms == self.millis,
    {
        self.millis
    }
}

} // verus!
