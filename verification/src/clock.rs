//! Points in time and the staleness window of a session.

use vstd::prelude::*;

verus! {

/// Nanoseconds in one second.
pub const NANOS_PER_SEC: i128 = 1_000_000_000;

/// Length of the staleness window, in seconds: six hours.
pub const STALENESS_WINDOW_SECS: i128 = 21_600;

/// A point on the local civil time line: whole seconds since the Unix epoch and
/// the nanoseconds past that second.
#[derive(Clone, Copy, Debug, PartialEq, Eq, Structural)]
pub struct Timestamp {
    pub secs: i64,
    pub nanos: u32,
}

impl Timestamp {
    /// The point as a single count of nanoseconds since the epoch.
    pub open spec fn instant(self) -> int {
        self.secs * NANOS_PER_SEC + self.nanos
    }

    /// Nanoseconds that pass between `earlier` and `self`; negative when
    /// `earlier` is the later of the two.
    pub open spec fn since(self, earlier: Timestamp) -> int {
        self.instant() - earlier.instant()
    }

    /// The current local time, read from the system clock. Which point in
    /// time comes back depends on the clock; whichever it is, its nanoseconds
    /// stand within the second they count from, a leap second included.
    pub fn now() -> (time: Timestamp)
        ensures
            time.within_second(),
    {
        local_now()
    }

    /// Whether the nanoseconds stand within the second they count from. A
    /// count of a thousand million or more stands for a leap second; no count
    /// reaches two thousand million.
    pub open spec fn within_second(self) -> bool {
        self.nanos < 2 * NANOS_PER_SEC
    }
}

/// A session is stale once more than six hours have passed since its last
/// login. A login that lies exactly six hours back, or in the future, is fresh.
pub open spec fn is_stale(last_login: Timestamp, now: Timestamp) -> bool {
    now.since(last_login) > STALENESS_WINDOW_SECS * NANOS_PER_SEC
}

/// Decides whether a session last used at `last_login` is stale at `now`.
pub fn stale(last_login: Timestamp, now: Timestamp) -> (expired: bool)
    ensures
        expired == is_stale(last_login, now),
{
    let whole: i128 = (now.secs as i128 - last_login.secs as i128) * NANOS_PER_SEC;
    let part: i128 = now.nanos as i128 - last_login.nanos as i128;
    whole + part > STALENESS_WINDOW_SECS * NANOS_PER_SEC
}

/// Reads the system clock through `chrono::Local::now` and gives the local
/// civil time, `naive_local`, as the seconds and nanoseconds that `timestamp`
/// and `timestamp_subsec_nanos` make of it. Of the point in time nothing is
/// claimed: it depends on the clock and on the time zone of the machine. Of
/// its nanoseconds the range is claimed that `chrono` documents for every
/// time: from 0 to 999,999,999, and up to 1,999,999,999 for a leap second.
#[verifier::external_body]
fn local_now() -> (time: Timestamp)
    ensures
        time.within_second(),
{
    let now = chrono::Local::now().naive_local().and_utc();
    Timestamp { secs: now.timestamp(), nanos: now.timestamp_subsec_nanos() }
}

} // verus!
