//! Instants in UTC, held as the plain values that the logic reads.
use vstd::prelude::*;

verus! {

/// An instant in UTC: whole seconds since the Unix epoch (as `chrono`'s
/// `timestamp`) and the nanoseconds within that second (as
/// `timestamp_subsec_nanos`; a leap second carries its extra second there).
#[derive(Debug, Clone, Copy, PartialEq, Eq, Hash, Structural)]
pub struct UtcInstant {
    pub secs: i64,
    pub nanos: u32,
}

impl UtcInstant {
    /// Chronological order: by seconds, then by nanoseconds.
    pub open spec fn no_later_than(self, other: UtcInstant) -> bool {
        self.secs < other.secs || (self.secs == other.secs && self.nanos <= other.nanos)
    }

    /// Strict chronological order.
    pub open spec fn earlier_than(self, other: UtcInstant) -> bool {
        self.no_later_than(other) && self != other
    }

    /// The whole seconds elapsed from `self` to a later instant
    /// (the duration's seconds, its sub-second part dropped).
    pub open spec fn whole_seconds_until(self, later: UtcInstant) -> int {
        if later.nanos >= self.nanos {
            later.secs - self.secs
        } else {
            later.secs - self.secs - 1
        }
    }

    /// The whole hours elapsed from `self` to a later instant.
    pub open spec fn whole_hours_until(self, later: UtcInstant) -> int {
        self.whole_seconds_until(later) / 3600
    }

    /// Whether `self` comes strictly before `other`.
    pub fn is_before(&self, other: &UtcInstant) -> (r: bool)
        ensures
            r == self.earlier_than(*other),
    {
        self.secs < other.secs || (self.secs == other.secs && self.nanos < other.nanos)
    }

    /// Whether `self` comes at or before `other`.
    pub fn is_at_or_before(&self, other: &UtcInstant) -> (r: bool)
        ensures
            r == self.no_later_than(*other),
    {
        self.secs < other.secs || (self.secs == other.secs && self.nanos <= other.nanos)
    }

    /// The whole hours elapsed from `self` to `later`.
    pub fn hours_until(&self, later: &UtcInstant) -> (h: u64)
        requires
            self.no_later_than(*later),
        ensures
            h == self.whole_hours_until(*later),
    {
        let secs: i128 = if later.nanos >= self.nanos {
            later.secs as i128 - self.secs as i128
        } else {
            later.secs as i128 - self.secs as i128 - 1
        };
        (secs / 3600) as u64
    }
}

/// Calls `chrono::Utc::now` and reads the instant with `timestamp` and
/// `timestamp_subsec_nanos`. Trusted: nothing is claimed of the clock.
#[verifier::external_body]
pub(crate) fn utc_now() -> (t: UtcInstant) {
    let now = chrono::Utc::now();
    UtcInstant { secs: now.timestamp(), nanos: now.timestamp_subsec_nanos() }
}

} // verus!
