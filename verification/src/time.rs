//! Points in time, counted in nanoseconds since the Unix epoch.

use vstd::prelude::*;
use vstd::string::StringExecFns;
use std::time::Duration;
use std::time::SystemTime;
use std::time::SystemTimeError;
use crate::text::decimal;
use crate::text::decimal_string;

verus! {

/// `std::time::SystemTime`: a reading of the system clock. Nothing is
/// known of what it holds.
#[verifier::external_type_specification]
#[verifier::external_body]
pub struct ExSystemTime(SystemTime);

/// `std::time::SystemTimeError`: the error of a reading that lies before
/// the instant it is held against. Nothing is known of what it holds.
#[verifier::external_type_specification]
#[verifier::external_body]
pub struct ExSystemTimeError(SystemTimeError);

/// The length of a `Duration`, in nanoseconds: what `Duration::as_nanos`
/// returns of it.
pub uninterp spec fn duration_nanos(d: Duration) -> nat;

/// The date and time, in text, of the instant that lies `nanos`
/// nanoseconds after the Unix epoch, or before it where `nanos` is
/// negative: what chrono writes for the `DateTime` that `Utc` makes of
/// `nanos`.
pub uninterp spec fn utc_date_time_text(nanos: i64) -> Seq<char>;

/// The number of values of a `u64`.
pub const U64_RANGE: u128 = 18_446_744_073_709_551_616;

/// For how long an ingress message may stay valid, in nanoseconds.
pub const MAX_INGRESS_TTL_NANOS: u64 = 5 * 60 * 1_000_000_000;

/// By how much the clocks of two nodes may differ, in nanoseconds.
pub const PERMITTED_DRIFT_NANOS: u64 = 60 * 1_000_000_000;

/// `SystemTime::now`: the reading of the system clock. Nothing is claimed
/// of it.
#[verifier::external_body]
fn system_time_now() -> SystemTime {
    SystemTime::now()
}

/// `SystemTime::duration_since`, taken from the Unix epoch: how long after
/// the epoch `at` lies, or an error where it lies before. Nothing is
/// claimed of which.
#[verifier::external_body]
fn since_unix_epoch(at: &SystemTime) -> Result<Duration, SystemTimeError> {
    at.duration_since(std::time::UNIX_EPOCH)
}

/// `Duration::as_nanos`: the whole length of `d` in nanoseconds.
#[verifier::external_body]
fn duration_as_nanos(d: &Duration) -> (nanos: u128)
    ensures
        nanos == duration_nanos(*d),
{
    d.as_nanos()
}

/// `Duration::from_nanos`: the duration of `nanos` nanoseconds.
#[verifier::external_body]
fn duration_from_nanos(nanos: u64) -> (d: Duration)
    ensures
        duration_nanos(d) == nanos,
{
    Duration::from_nanos(nanos)
}

/// `TimeZone::timestamp_nanos` of chrono's `Utc`, and the `Display` of
/// the `DateTime` that it makes: the date and time of an instant in text.
/// The instant of every `nanos` has one, and the text is the same wherever
/// it is made.
#[verifier::external_body]
fn utc_date_time_string(nanos: i64) -> (text: String)
    ensures
        text@ == utc_date_time_text(nanos),
{
    format!("{}", chrono::TimeZone::timestamp_nanos(&chrono::Utc, nanos))
}

/// Time since the Unix epoch, in nanoseconds.
///
/// Like `std::time::Instant`, a `Time` has no default value.
#[derive(Clone, Copy, PartialEq, Eq, Structural, PartialOrd, Ord, Debug, Hash)]
pub struct Time(pub u64);

impl View for Time {
    type V = u64;

    /// The number of nanoseconds since the Unix epoch.
    open spec fn view(&self) -> u64 {
        self.0
    }
}

/// The Unix epoch.
pub fn unix_epoch() -> (t: Time)
    ensures
        t@ == 0,
{
    Time(0)
}

/// The count of nanoseconds that a time holds for an instant that lies
/// `nanos` nanoseconds after the epoch: the count wraps at 64 bits.
pub open spec fn wrapped_nanos(nanos: int) -> u64 {
    (nanos % (U64_RANGE as int)) as u64
}

/// The count that `longer` nanoseconds after a time of `nanos`
/// nanoseconds wraps to.
fn wrapping_later(nanos: u64, longer: u128) -> (later: u64)
    ensures
        later == wrapped_nanos(nanos + longer),
{
    let reduced: u128 = longer % U64_RANGE;
    let sum: u128 = nanos as u128 + reduced;
    proof {
        vstd::arithmetic::div_mod::lemma_add_mod_noop_right(
            nanos as int,
            longer as int,
            U64_RANGE as int,
        );
    }
    (sum % U64_RANGE) as u64
}

/// The text of a time: its date and time where a signed count of 64 bits
/// holds its nanoseconds, else the count of its nanoseconds and `ns`.
pub open spec fn time_text(time: Time) -> Seq<char> {
    if time@ <= i64::MAX {
        utc_date_time_text(time@ as i64)
    } else {
        decimal(time@ as nat) + seq!['n', 's']
    }
}

impl Time {
    /// Number of nanoseconds since the Unix epoch.
    pub fn as_nanos_since_unix_epoch(self) -> (nanos: u64)
        ensures
            nanos == self@,
    {
        self.0
    }

    /// The time that lies `nanos` nanoseconds after the Unix epoch.
    pub fn from_nanos_since_unix_epoch(nanos: u64) -> (t: Time)
        ensures
            t@ == nanos,
    {
        Time(nanos)
    }

    /// The time that lies `t` after the Unix epoch. The count of
    /// nanoseconds wraps at 64 bits.
    pub fn from_duration(t: Duration) -> (time: Time)
        ensures
            time@ == wrapped_nanos(duration_nanos(t) as int),
    {
        let nanos: u128 = duration_as_nanos(&t);
        Time((nanos % U64_RANGE) as u64)
    }

    /// Moves this time later by `other`. The count of nanoseconds wraps
    /// at 64 bits.
    pub fn add_assign(&mut self, other: Duration)
        ensures
            final(self)@ == wrapped_nanos(old(self)@ + duration_nanos(other)),
    {
        self.0 = wrapping_later(self.0, duration_as_nanos(&other));
    }

    /// This time in text.
    pub fn to_string(&self) -> (text: String)
        ensures
            text@ == time_text(*self),
    {
        if self.0 <= i64::MAX as u64 {
            utc_date_time_string(self.0 as i64)
        } else {
            proof {
                reveal_strlit("ns");
                assert("ns"@ =~= seq!['n', 's']);
            }
            decimal_string(self.0).concat("ns")
        }
    }
}

impl core::ops::Add<Duration> for Time {
    type Output = Time;

    /// The time that lies `dur` after this one. The count of nanoseconds
    /// wraps at 64 bits.
    fn add(self, dur: Duration) -> (time: Time)
        ensures
            time@ == wrapped_nanos(self@ + duration_nanos(dur)),
    {
        Time(wrapping_later(self.0, duration_as_nanos(&dur)))
    }
}

impl vstd::std_specs::ops::AddSpecImpl<Duration> for Time {
    open spec fn obeys_add_spec() -> bool {
        true
    }

    open spec fn add_req(self, dur: Duration) -> bool {
        true
    }

    open spec fn add_spec(self, dur: Duration) -> Time {
        Time(wrapped_nanos(self@ + duration_nanos(dur)))
    }
}

impl core::ops::Sub<Time> for Time {
    type Output = Duration;

    /// The time that has passed from `other` to this time.
    fn sub(self, other: Time) -> (passed: Duration)
        ensures
            duration_nanos(passed) == self@ - other@,
    {
        duration_from_nanos(self.0 - other.0)
    }
}

impl vstd::std_specs::ops::SubSpecImpl<Time> for Time {
    open spec fn obeys_sub_spec() -> bool {
        false
    }

    /// `other` must not lie after this time.
    open spec fn sub_req(self, other: Time) -> bool {
        other@ <= self@
    }

    open spec fn sub_spec(self, other: Time) -> Duration {
        arbitrary()
    }
}

impl core::ops::Sub<Duration> for Time {
    type Output = Time;

    /// The time that lies `other` before this one.
    fn sub(self, other: Duration) -> (time: Time)
        ensures
            time@ == self@ - duration_nanos(other),
    {
        let nanos: u128 = duration_as_nanos(&other);
        Time(self.0 - nanos as u64)
    }
}

impl vstd::std_specs::ops::SubSpecImpl<Duration> for Time {
    open spec fn obeys_sub_spec() -> bool {
        true
    }

    /// `other` must not reach back before the epoch.
    open spec fn sub_req(self, other: Duration) -> bool {
        duration_nanos(other) <= self@
    }

    open spec fn sub_spec(self, other: Duration) -> Time {
        Time((self@ - duration_nanos(other)) as u64)
    }
}

impl TryFrom<Duration> for Time {
    type Error = &'static str;

    /// The time that lies `d` after the Unix epoch, where a count of 64
    /// bits holds its nanoseconds.
    fn try_from(d: Duration) -> (time: Result<Time, &'static str>)
        ensures
            duration_nanos(d) <= u64::MAX ==> time == Ok::<Time, &'static str>(
                Time(duration_nanos(d) as u64),
            ),
            duration_nanos(d) > u64::MAX ==> time == Err::<Time, &'static str>(
                "Duration is too large to be converted into a u64 of nanoseconds!",
            ),
    {
        let nanos: u128 = duration_as_nanos(&d);
        if nanos < U64_RANGE {
            Ok(Time(nanos as u64))
        } else {
            Err("Duration is too large to be converted into a u64 of nanoseconds!")
        }
    }
}

impl vstd::std_specs::convert::TryFromSpecImpl<Duration> for Time {
    open spec fn obeys_try_from_spec() -> bool {
        true
    }

    open spec fn try_from_spec(d: Duration) -> Result<Time, &'static str> {
        if duration_nanos(d) <= u64::MAX {
            Ok(Time(duration_nanos(d) as u64))
        } else {
            Err("Duration is too large to be converted into a u64 of nanoseconds!")
        }
    }
}

impl From<Time> for Duration {
    /// The time that has passed from the Unix epoch to `val`.
    fn from(val: Time) -> (d: Duration)
        ensures
            duration_nanos(d) == val@,
    {
        duration_from_nanos(val.0)
    }
}

impl vstd::std_specs::convert::FromSpecImpl<Time> for Duration {
    open spec fn obeys_from_spec() -> bool {
        false
    }

    open spec fn from_spec(val: Time) -> Duration {
        arbitrary()
    }
}

/// The time that a reading of the system clock stands for. A clock that
/// is set before the Unix epoch reads as the epoch.
pub open spec fn time_of_reading(reading: Result<Duration, SystemTimeError>) -> Time {
    match reading {
        Ok(since_epoch) => Time(wrapped_nanos(duration_nanos(since_epoch) as int)),
        Err(_) => Time(0),
    }
}

/// The time until which an ingress message that is made at a reading of
/// the system clock is given to live: as long as ingress messages may
/// live, less the drift that is permitted between clocks.
pub open spec fn expiry_of_reading(reading: Result<Duration, SystemTimeError>) -> Time {
    match reading {
        Ok(since_epoch) => Time(
            wrapped_nanos(
                duration_nanos(since_epoch) + MAX_INGRESS_TTL_NANOS - PERMITTED_DRIFT_NANOS,
            ),
        ),
        Err(_) => Time((MAX_INGRESS_TTL_NANOS - PERMITTED_DRIFT_NANOS) as u64),
    }
}

/// Turns a reading of the system clock into the time that it stands for,
/// and the expiry time of an ingress message that is made then.
pub fn times_from_reading(reading: Result<Duration, SystemTimeError>) -> (times: (Time, Time))
    ensures
        times.0 == time_of_reading(reading),
        times.1 == expiry_of_reading(reading),
{
    match reading {
        Ok(since_epoch) => {
            let nanos: u128 = duration_as_nanos(&since_epoch);
            let expiry = wrapping_later(MAX_INGRESS_TTL_NANOS - PERMITTED_DRIFT_NANOS, nanos);
            (Time((nanos % U64_RANGE) as u64), Time(expiry))
        },
        Err(_) => (Time(0), Time(MAX_INGRESS_TTL_NANOS - PERMITTED_DRIFT_NANOS)),
    }
}

/// Whether a time is what some reading of the system clock stands for.
pub open spec fn is_clock_reading(time: Time) -> bool {
    exists|reading: Result<Duration, SystemTimeError>| time == #[trigger] time_of_reading(reading)
}

/// Returns the current time.
///
/// This reads the system clock, which differs from node to node: no
/// deterministic part of the protocol may depend on it.
pub fn current_time() -> (time: Time)
    ensures
        exists|reading: Result<Duration, SystemTimeError>|
            time == #[trigger] time_of_reading(reading),
{
    let start = system_time_now();
    let reading = since_unix_epoch(&start);
    times_from_reading(reading).0
}

/// Returns the current time, and the expiry time for an ingress message
/// that is made now: the current time and the longest life of an ingress
/// message, less the drift that is permitted between clocks, since the
/// time of the block that takes the message lags behind the clock.
///
/// This reads the system clock, which differs from node to node: no
/// deterministic part of the protocol may depend on it.
pub fn current_time_and_expiry_time() -> (times: (Time, Time))
    ensures
        exists|reading: Result<Duration, SystemTimeError>|
            times.0 == #[trigger] time_of_reading(reading) && times.1 == expiry_of_reading(
                reading,
            ),
{
    let start = system_time_now();
    let reading = since_unix_epoch(&start);
    let times = times_from_reading(reading);
    assert(times.0 == time_of_reading(reading) && times.1 == expiry_of_reading(reading));
    times
}

} // verus!
