use vstd::prelude::*;

verus! {

/// Number of nanoseconds in one millisecond.
pub const NANOS_PER_MILLI: u128 = 1_000_000;

/// A point in time, counted in nanoseconds from the Unix epoch.
///
/// Events carry timestamps with sub-millisecond resolution; the clustering
/// logic only needs to compare and subtract them.
#[derive(Debug, Clone, Copy, PartialEq, Eq, Structural)]
pub struct Timestamp {
    nanos: u128,
}

impl View for Timestamp {
    type V = nat;

    closed spec fn view(&self) -> nat {
        self.nanos as nat
    }
}

impl Timestamp {
    /// The timestamp `nanos` nanoseconds after the epoch.
    pub fn from_nanos(nanos: u128) -> (r: Timestamp)
        ensures
            r@ == nanos as nat,
    {
        Timestamp { nanos }
    }

    /// The timestamp `millis` milliseconds after the epoch.
    pub fn from_millis(millis: u64) -> (r: Timestamp)
        ensures
            r@ == millis as nat * NANOS_PER_MILLI as nat,
    {
        let nanos: u128 = millis as u128 * NANOS_PER_MILLI;
        Timestamp { nanos }
    }

    /// Nanoseconds since the epoch.
    pub fn as_nanos(&self) -> (r: u128)
        ensures
            r as nat == self@,
    {
        self.nanos
    }

    /// Whether `self` lies no more than `limit_ms` milliseconds after `anchor`.
    pub fn within_millis_of(&self, anchor: &Timestamp, limit_ms: u64) -> (r: bool)
        requires
            anchor@ <= self@,
        ensures
            r == within_window(anchor@, self@, limit_ms as nat),
    {
        let elapsed: u128 = self.nanos - anchor.nanos;
        elapsed <= limit_ms as u128 * NANOS_PER_MILLI
    }
}

/// `t` lies at most `limit_ms` milliseconds after `anchor` (bounds included).
pub open spec fn within_window(anchor: nat, t: nat, limit_ms: nat) -> bool {
    t <= anchor + limit_ms * NANOS_PER_MILLI as nat
}

} // verus!
