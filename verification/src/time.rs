//! Points in time, as the service stamps them on records.

use vstd::prelude::*;

verus! {

/// A point in time: whole seconds since the Unix epoch and the nanoseconds
/// past that second.
#[derive(Clone, Copy, Debug, PartialEq, Eq, Structural)]
pub struct Timestamp {
    pub seconds: i64,
    pub nanos: u32,
}

impl View for Timestamp {
    type V = Timestamp;

    open spec fn view(&self) -> Timestamp {
        *self
    }
}

impl Timestamp {
    /// Whether `self` lies strictly before `other`.
    pub open spec fn earlier_than(self, other: Timestamp) -> bool {
        self.seconds < other.seconds || (self.seconds == other.seconds && self.nanos < other.nanos)
    }

    /// Compares two points in time.
    pub fn is_before(&self, other: &Timestamp) -> (r: bool)
        ensures
            r == self.earlier_than(*other),
    {
        self.seconds < other.seconds || (self.seconds == other.seconds && self.nanos < other.nanos)
    }

    /// The current time of the machine's clock, which is not before 1970.
    pub fn now() -> (t: Timestamp)
        ensures
            t.seconds >= 0,
            t.nanos < 1_000_000_000,
    {
        clock_now()
    }
}

/// Reads `chrono::Utc::now()` and hands back its seconds and nanoseconds.
/// The value depends on the clock: all that is claimed is that it counts
/// from 1970 on, with less than a second of nanoseconds. Where the clock
/// stands before 1970 the call does not return.
#[verifier::external_body]
fn clock_now() -> (t: Timestamp)
    ensures
        t.seconds >= 0,
        t.nanos < 1_000_000_000,
{
    let t = chrono::Utc::now();
    Timestamp { seconds: t.timestamp(), nanos: t.timestamp_subsec_nanos() }
}

} // verus!
