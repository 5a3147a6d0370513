//! Spans of time, and the clock that events are stamped with.

use vstd::prelude::*;

verus! {

/// The number of nanoseconds in a second.
pub const NANOS_PER_SEC: u32 = 1_000_000_000;

/// A span of time, as whole seconds and the nanoseconds past them; the same
/// range of values as `core::time::Duration`.
#[derive(Debug, Clone, Copy, PartialEq, Eq, Structural)]
pub struct Duration {
    secs: u64,
    nanos: u32,
}

impl View for Duration {
    type V = nat;

    /// The span in nanoseconds.
    closed spec fn view(&self) -> nat {
        (self.secs * NANOS_PER_SEC + self.nanos) as nat
    }
}

impl Duration {
    #[verifier::type_invariant]
    spec fn nanos_below_one_second(self) -> bool {
        self.nanos < NANOS_PER_SEC
    }

    /// A span of `secs` seconds and `nanos` nanoseconds; nanoseconds past a
    /// whole second carry into the seconds.
    pub fn new(secs: u64, nanos: u32) -> (d: Duration)
        requires
            secs + nanos / NANOS_PER_SEC <= u64::MAX,
        ensures
            d@ == secs * NANOS_PER_SEC + nanos,
    {
        let extra = nanos / NANOS_PER_SEC;
        Duration { secs: secs + extra as u64, nanos: nanos % NANOS_PER_SEC }
    }

    /// The span of no time at all.
    pub fn zero() -> (d: Duration)
        ensures
            d@ == 0,
    {
        Duration { secs: 0, nanos: 0 }
    }

    /// A span of `secs` whole seconds.
    pub fn from_secs(secs: u64) -> (d: Duration)
        ensures
            d@ == secs * NANOS_PER_SEC,
    {
        Duration { secs, nanos: 0 }
    }

    /// A span of `millis` milliseconds.
    pub fn from_millis(millis: u64) -> (d: Duration)
        ensures
            d@ == millis * 1_000_000,
    {
        let nanos = ((millis % 1000) as u32) * 1_000_000;
        Duration { secs: millis / 1000, nanos }
    }

    /// The whole seconds of the span.
    pub fn as_secs(&self) -> (secs: u64)
        ensures
            secs == self@ / (NANOS_PER_SEC as nat),
    {
        proof { use_type_invariant(self); }
        self.secs
    }

    /// The nanoseconds of the span past its whole seconds.
    pub fn subsec_nanos(&self) -> (nanos: u32)
        ensures
            nanos == self@ % (NANOS_PER_SEC as nat),
    {
        proof { use_type_invariant(self); }
        self.nanos
    }

    /// The whole milliseconds of the span.
    pub fn as_millis(&self) -> (millis: u128)
        ensures
            millis == self@ / 1_000_000,
    {
        proof { use_type_invariant(self); }
        (self.secs as u128) * 1000 + (self.nanos / 1_000_000) as u128
    }

    /// The span in nanoseconds.
    pub fn as_nanos(&self) -> (nanos: u128)
        ensures
            nanos == self@,
    {
        proof { use_type_invariant(self); }
        assert((self.secs as u128) * 1_000_000_000 <= 0xffff_ffff_ffff_ffffu128 * 1_000_000_000);
        (self.secs as u128) * (NANOS_PER_SEC as u128) + self.nanos as u128
    }

    /// `self - other`, or `None` where `other` is the longer span.
    pub fn checked_sub(&self, other: &Duration) -> (d: Option<Duration>)
        ensures
            match d {
                Some(d) => self@ >= other@ && d@ == self@ - other@,
                None => self@ < other@,
            },
    {
        proof {
            use_type_invariant(self);
            use_type_invariant(other);
        }
        if self.secs < other.secs || (self.secs == other.secs && self.nanos < other.nanos) {
            None
        } else if self.nanos >= other.nanos {
            Some(Duration { secs: self.secs - other.secs, nanos: self.nanos - other.nanos })
        } else {
            Some(Duration {
                secs: self.secs - other.secs - 1,
                nanos: self.nanos + NANOS_PER_SEC - other.nanos,
            })
        }
    }

    /// Whether `self` is the longer span.
    pub fn longer_than(&self, other: &Duration) -> (longer: bool)
        ensures
            longer == (self@ > other@),
    {
        proof {
            use_type_invariant(self);
            use_type_invariant(other);
        }
        self.secs > other.secs || (self.secs == other.secs && self.nanos > other.nanos)
    }
}

/// Reads the system clock through `std::time::SystemTime::now`, as the span
/// since `UNIX_EPOCH` (`SystemTime::duration_since`), in whole seconds and the
/// nanoseconds past them (`Duration::as_secs`, `Duration::subsec_nanos`).
///
/// Trusted: the contract claims only what `subsec_nanos` documents, that the
/// nanoseconds stay below one second. What the clock reads is left unsaid; a
/// clock set before the epoch reads as zero.
#[verifier::external_body]
fn system_clock_since_epoch() -> (parts: (u64, u32))
    ensures
        parts.1 < NANOS_PER_SEC,
{
    let since = std::time::SystemTime::now().duration_since(std::time::UNIX_EPOCH).unwrap_or_default();
    (since.as_secs(), since.subsec_nanos())
}

/// The current time, as the span since the Unix epoch.
pub fn current_time() -> (now: Duration) {
    let (secs, nanos) = system_clock_since_epoch();
    Duration::new(secs, nanos)
}

} // verus!
