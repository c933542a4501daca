use vstd::prelude::*;

verus! {

/// A point in time, as seconds and nanoseconds since the UNIX epoch (the form
/// in which a system time is written into a resource's status).
#[derive(Clone, Copy, Debug, PartialEq, Eq, Structural)]
pub struct Timestamp {
    pub secs_since_epoch: u64,
    pub nanos_since_epoch: u32,
}

/// A span of time in seconds and nanoseconds.
#[derive(Clone, Copy, Debug, PartialEq, Eq, Structural)]
pub struct TimeSpan {
    pub secs: u64,
    pub nanos: u32,
}

/// The number of nanoseconds in a second.
pub const NANOS_PER_SEC: u64 = 1_000_000_000;

proof fn lemma_nanos_fit(secs: u64, nanos: u32)
    ensures
        secs as u128 * NANOS_PER_SEC as u128 + nanos as u128 <= u128::MAX,
        0 <= secs * NANOS_PER_SEC,
{
    assert(secs as u128 * NANOS_PER_SEC as u128 <= 0xffff_ffff_ffff_ffff * 1_000_000_000u128)
        by (nonlinear_arith);
}

impl Timestamp {
    /// The time in nanoseconds since the epoch.
    pub open spec fn total_nanos(self) -> int {
        self.secs_since_epoch * NANOS_PER_SEC + self.nanos_since_epoch
    }

    /// The UNIX epoch itself.
    pub fn unix_epoch() -> (t: Timestamp)
        ensures
            t.total_nanos() == 0,
            t.secs_since_epoch == 0,
            t.nanos_since_epoch == 0,
    {
        Timestamp { secs_since_epoch: 0, nanos_since_epoch: 0 }
    }

    /// How long after `self` the moment `now` lies: `None` when `now` lies
    /// before `self` (as a system clock's `duration_since` reports an error).
    pub fn elapsed_until(&self, now: &Timestamp) -> (r: Option<u128>)
        ensures
            r is Some <==> self.total_nanos() <= now.total_nanos(),
            r is Some ==> r->0 == now.total_nanos() - self.total_nanos(),
    {
        proof {
            lemma_nanos_fit(self.secs_since_epoch, self.nanos_since_epoch);
            lemma_nanos_fit(now.secs_since_epoch, now.nanos_since_epoch);
        }
        let a = self.secs_since_epoch as u128 * NANOS_PER_SEC as u128 + self.nanos_since_epoch as u128;
        let b = now.secs_since_epoch as u128 * NANOS_PER_SEC as u128 + now.nanos_since_epoch as u128;
        if a <= b {
            Some(b - a)
        } else {
            None
        }
    }
}

impl TimeSpan {
    /// The span in nanoseconds.
    pub open spec fn total_nanos(self) -> int {
        self.secs * NANOS_PER_SEC + self.nanos
    }

    /// A span of whole seconds.
    pub fn from_secs(secs: u64) -> (d: TimeSpan)
        ensures
            d.secs == secs,
            d.nanos == 0,
            d.total_nanos() == secs * NANOS_PER_SEC,
    {
        TimeSpan { secs, nanos: 0 }
    }

    /// The span in nanoseconds.
    pub fn as_nanos(&self) -> (n: u128)
        ensures
            n == self.total_nanos(),
    {
        proof {
            lemma_nanos_fit(self.secs, self.nanos);
        }
        self.secs as u128 * NANOS_PER_SEC as u128 + self.nanos as u128
    }
}

} // verus!
