//! The wait before an entry's first delivery, and the clock it is measured against.

use std::time::Duration;
use std::time::SystemTime;
use std::time::SystemTimeError;
use vstd::prelude::*;
use vstd::std_specs::convert::TryFromSpecImpl;

verus! {

/// `std::time::SystemTime`, a reading of the wall clock. Nothing is known of its inside.
#[verifier::external_type_specification]
#[verifier::external_body]
pub struct ExSystemTime(SystemTime);

/// `std::time::SystemTimeError`, which `SystemTime::duration_since` returns when the
/// earlier point lies after the later one.
#[verifier::external_type_specification]
#[verifier::external_body]
pub struct ExSystemTimeError(SystemTimeError);

/// The length of a duration in nanoseconds, as `Duration::as_nanos` reports it.
pub uninterp spec fn duration_nanos(d: Duration) -> nat;

/// The nanoseconds that lie between `earlier` and `later`, as `SystemTime::duration_since`
/// reports them: `None` when `earlier` lies after `later`.
pub uninterp spec fn elapsed_since(later: SystemTime, earlier: SystemTime) -> Option<nat>;

/// `Duration::as_nanos` returns the total number of nanoseconds that the duration holds.
pub assume_specification[ Duration::as_nanos ](d: &Duration) -> (n: u128)
    ensures
        n == duration_nanos(*d),
;

/// `SystemTime::now` reads the system clock: nothing is promised of the reading.
pub assume_specification[ SystemTime::now ]() -> (t: SystemTime)
;

/// `SystemTime::duration_since` returns the time elapsed from `earlier` to `later`, and an
/// error when `earlier` is the later of the two.
pub assume_specification[ SystemTime::duration_since ](
    later: &SystemTime,
    earlier: SystemTime,
) -> (r: Result<Duration, SystemTimeError>)
    ensures
        match r {
            Ok(d) => elapsed_since(*later, earlier) == Some(duration_nanos(d)),
            Err(_) => elapsed_since(*later, earlier) is None,
        },
;

/// `Duration::ZERO` is a duration of zero time.
#[verifier::external_body]
fn zero_duration() -> (d: Duration)
    ensures
        duration_nanos(d) == 0,
{
    Duration::ZERO
}

/// The wait before the first delivery of an entry.
#[derive(Debug, Clone, Copy)]
pub enum Delay {
    /// Wait for this long.
    Relative(Duration),
    /// Wait until this point in time.
    Absolute(SystemTime),
    /// Do not wait.
    NoDelay,
}

/// Tells whether `r` is the wait that `delay` asks for when the clock reads `now`: the
/// wait in full, or an error when the point in time that an absolute delay names has
/// already passed.
pub open spec fn wait_read(
    delay: Delay,
    now: SystemTime,
    r: Result<Duration, SystemTimeError>,
) -> bool {
    match r {
        Ok(d) => delay.spec_wait_at(now) == Some(duration_nanos(d)),
        Err(_) => delay.spec_wait_at(now) is None,
    }
}

impl Delay {
    /// The nanoseconds to wait when the clock reads `now`; `None` when the point in time
    /// that an absolute delay names has already passed.
    pub open spec fn spec_wait_at(self, now: SystemTime) -> Option<nat> {
        match self {
            Delay::Relative(d) => Some(duration_nanos(d)),
            Delay::Absolute(t) => elapsed_since(t, now),
            Delay::NoDelay => Some(0nat),
        }
    }

    /// The wait that this delay asks for when the clock reads `now`.
    pub fn wait_at(self, now: SystemTime) -> (r: Result<Duration, SystemTimeError>)
        ensures
            wait_read(self, now, r),
            self matches Delay::Relative(d) ==> r matches Ok(wait) && wait == d,
    {
        match self {
            Delay::Relative(d) => Ok(d),
            Delay::Absolute(t) => t.duration_since(now),
            Delay::NoDelay => Ok(zero_duration()),
        }
    }
}

impl TryFrom<Delay> for Duration {
    type Error = SystemTimeError;

    /// The wait that the delay asks for at the time of the call: an absolute delay is
    /// measured against the system clock, and is an error once its time has passed.
    fn try_from(value: Delay) -> (r: Result<Duration, SystemTimeError>)
        ensures
            exists|now: SystemTime| #[trigger] wait_read(value, now, r),
    {
        let now = SystemTime::now();
        let r = value.wait_at(now);
        proof {
            assert(wait_read(value, now, r));
        }
        r
    }
}

/// The conversion reads the clock: no function of the delay alone says what it returns.
impl TryFromSpecImpl<Delay> for Duration {
    open spec fn obeys_try_from_spec() -> bool {
        false
    }

    open spec fn try_from_spec(value: Delay) -> Result<Duration, SystemTimeError> {
        arbitrary()
    }
}

/// The nanoseconds before the first delivery of an entry with this delay and interval,
/// inserted when the clock reads `now`: an absolute delay that has passed gives the
/// interval.
pub open spec fn initial_wait_nanos(delay: Delay, interval: Duration, now: SystemTime) -> nat {
    match delay.spec_wait_at(now) {
        Some(n) => n,
        None => duration_nanos(interval),
    }
}

/// The wait before the first delivery of an entry with this delay and interval, inserted
/// when the clock reads `now`.
pub fn initial_wait(delay: Delay, interval: Duration, now: SystemTime) -> (wait: Duration)
    ensures
        duration_nanos(wait) == initial_wait_nanos(delay, interval, now),
        delay matches Delay::Relative(d) ==> wait == d,
        delay is NoDelay ==> duration_nanos(wait) == 0,
        delay.spec_wait_at(now) is None ==> wait == interval,
{
    match delay.wait_at(now) {
        Ok(d) => d,
        Err(_) => interval,
    }
}

} // verus!
