//! Durations and instants as the wire messages carry them.

use vstd::prelude::*;

verus! {

/// Nanoseconds in one second.
pub const NANOS_PER_SEC: u32 = 1_000_000_000;

/// The whole milliseconds that a `Duration` holds.
pub uninterp spec fn duration_millis(d: std::time::Duration) -> u128;

/// `Duration::as_millis` returns the duration's whole milliseconds;
/// [`duration_millis`] names them.
pub assume_specification[ std::time::Duration::as_millis ](d: &std::time::Duration) -> (millis: u128)
    ensures
        millis == duration_millis(*d),
;

/// `std::time::SystemTime`, carried through as it is.
#[verifier::external_type_specification]
#[verifier::external_body]
pub struct ExSystemTime(std::time::SystemTime);

/// `SystemTime::now` reads the system clock. Nothing is claimed of the
/// instant.
pub assume_specification[ std::time::SystemTime::now ]() -> (now: std::time::SystemTime)
;

/// Calls `SystemTime::duration_since` with `UNIX_EPOCH`: how far after the
/// epoch the instant lies, `None` for an instant before it. Nothing is
/// claimed of the distance.
#[verifier::external_body]
fn since_epoch(time: &std::time::SystemTime) -> Option<std::time::Duration> {
    time.duration_since(std::time::UNIX_EPOCH).ok()
}

/// `Duration::as_secs` returns the duration's whole seconds. Nothing is
/// claimed of their number.
pub assume_specification[ std::time::Duration::as_secs ](d: &std::time::Duration) -> (secs: u64)
;

/// `Duration::subsec_nanos` returns the part of the duration beyond its
/// whole seconds, in nanoseconds, which is less than a second.
pub assume_specification[ std::time::Duration::subsec_nanos ](d: &std::time::Duration) -> (nanos: u32)
    ensures
        nanos < 1_000_000_000,
;

/// An instant of the system clock, by its distance from the Unix epoch.
///
/// An instant before the epoch has no wire form; all such instants are one
/// value here.
#[derive(Clone, Copy, Debug, PartialEq, Eq, Structural)]
pub enum Timestamp {
    SinceEpoch { secs: u64, nanos: u32 },
    BeforeEpoch,
}

impl Timestamp {
    /// The fraction of a second is less than a second.
    pub open spec fn wf(self) -> bool {
        self matches Timestamp::SinceEpoch { nanos, .. } ==> nanos < NANOS_PER_SEC
    }

    /// Reads the system clock. Which instant comes back depends on the
    /// clock; its fraction is less than a second.
    pub(crate) fn now() -> (now: Timestamp)
        ensures
            now.wf(),
    {
        let time = std::time::SystemTime::now();
        match since_epoch(&time) {
            Some(d) => Timestamp::SinceEpoch { secs: d.as_secs(), nanos: d.subsec_nanos() },
            None => Timestamp::BeforeEpoch,
        }
    }
}

} // verus!
