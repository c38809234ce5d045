//! Instants on the Unix time line, as whole seconds and nanoseconds.

use vstd::prelude::*;

verus! {

/// Nanoseconds in one second.
pub const NANOS_PER_SECOND: u32 = 1_000_000_000;

/// An instant: `secs` whole seconds after the Unix epoch and `nanos`
/// nanoseconds into that second.
#[derive(Clone, Copy, Debug, PartialEq, Eq, Structural)]
pub struct Timestamp {
    pub secs: u64,
    pub nanos: u32,
}

/// Reads the clock: `chrono::Utc::now`, as `chrono::DateTime::timestamp`
/// and `chrono::DateTime::timestamp_subsec_nanos` give it. The crate panics
/// where the system clock stands before the Unix epoch, and counts a leap
/// second into the nanoseconds. Nothing is claimed of what a clock reads.
#[verifier::external_body]
fn clock_reading() -> (i64, u32) {
    let now = chrono::Utc::now();
    (now.timestamp(), now.timestamp_subsec_nanos())
}

impl Timestamp {
    /// The sub-second part is a proper fraction of a second.
    pub open spec fn wf(&self) -> bool {
        self.nanos < NANOS_PER_SECOND
    }

    /// The instant as one integer: nanoseconds since the epoch.
    pub open spec fn as_nanos(&self) -> int {
        self.secs * (NANOS_PER_SECOND as int) + self.nanos
    }

    /// The instant `seconds` later, on the unbounded time line.
    pub open spec fn later_by(&self, seconds: int) -> Timestamp
        recommends
            0 <= seconds,
            self.secs + seconds <= u64::MAX,
    {
        Timestamp { secs: (self.secs + seconds) as u64, nanos: self.nanos }
    }

    /// Builds an instant, refusing a sub-second part of a second or more.
    pub fn new(secs: u64, nanos: u32) -> (t: Option<Timestamp>)
        ensures
            t is Some <==> nanos < NANOS_PER_SECOND,
            t is Some ==> t->0 == (Timestamp { secs, nanos }),
    {
        if nanos < NANOS_PER_SECOND {
            Some(Timestamp { secs, nanos })
        } else {
            None
        }
    }

    /// The instant that a clock reads as `secs` seconds since the epoch and
    /// `nanos` nanoseconds on: `None` for a reading before the epoch, and
    /// for one that counts a second or more into its nanoseconds.
    pub fn from_reading(secs: i64, nanos: u32) -> (t: Option<Timestamp>)
        ensures
            t is Some <==> 0 <= secs && nanos < NANOS_PER_SECOND,
            t is Some ==> t->0 == (Timestamp { secs: secs as u64, nanos }),
    {
        if secs < 0 {
            None
        } else {
            Timestamp::new(secs as u64, nanos)
        }
    }

    /// The instant that the clock reads now, where it reads one. Whatever
    /// it reads, the instant is well formed and leaves more than a token's
    /// lifetime of seconds before the count of seconds runs out.
    pub fn now() -> (t: Option<Timestamp>)
        ensures
            t matches Some(instant) ==> instant.wf() && instant.secs <= i64::MAX,
    {
        let (secs, nanos) = clock_reading();
        Timestamp::from_reading(secs, nanos)
    }

    /// Whether `self` comes strictly before `other`: by the seconds, and by
    /// the nanoseconds where the seconds agree.
    pub open spec fn precedes(&self, other: Timestamp) -> bool {
        self.secs < other.secs || (self.secs == other.secs && self.nanos < other.nanos)
    }

    /// Whether `self` lies strictly before `other`.
    pub fn is_before(&self, other: &Timestamp) -> (b: bool)
        ensures
            b == self.precedes(*other),
    {
        self.secs < other.secs || (self.secs == other.secs && self.nanos < other.nanos)
    }

    /// The instant `seconds` after `self`.
    pub fn plus_seconds(&self, seconds: u64) -> (t: Timestamp)
        requires
            self.secs + seconds <= u64::MAX,
        ensures
            t == self.later_by(seconds as int),
            t.wf() == self.wf(),
            t.as_nanos() == self.as_nanos() + seconds * (NANOS_PER_SECOND as int),
    {
        Timestamp { secs: self.secs + seconds, nanos: self.nanos }
    }
}

/// Between well-formed instants, `precedes` is the order of the nanosecond
/// counts.
pub proof fn lemma_precedes_by_nanos(a: Timestamp, b: Timestamp)
    requires
        a.wf(),
        b.wf(),
    ensures
        a.precedes(b) <==> a.as_nanos() < b.as_nanos(),
{
}

} // verus!
