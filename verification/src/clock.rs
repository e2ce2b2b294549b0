//! Wall-clock time in milliseconds, and the arithmetic that expiry rests on.

use std::time::Duration;
use vstd::prelude::*;

verus! {

/// The failure that `SystemTime::elapsed` reports when the clock stands before the given time.
#[verifier::external_type_specification]
#[verifier::external_body]
pub struct ExSystemTimeError(std::time::SystemTimeError);

/// The whole milliseconds in a duration, as `Duration::as_millis` counts them.
pub uninterp spec fn duration_millis(duration: Duration) -> u128;

/// `Duration::as_millis`: the whole milliseconds in `duration`.
#[verifier::external_body]
pub(crate) fn as_millis(duration: Duration) -> (millis: u128)
    ensures
        millis == duration_millis(duration),
{
    duration.as_millis()
}

/// `Duration::from_secs`: a duration of exactly `secs` seconds.
#[verifier::external_body]
pub(crate) fn from_secs(secs: u64) -> (duration: Duration)
    ensures
        duration_millis(duration) == secs * 1000,
{
    Duration::from_secs(secs)
}

/// `SystemTime::elapsed` on the Unix epoch: how far the system clock has moved past it, or a
/// failure if the clock stands before it. The reading depends on the machine's clock alone, so
/// nothing is claimed of it.
#[verifier::external_body]
fn epoch_elapsed() -> (reading: Result<Duration, std::time::SystemTimeError>)
{
    std::time::UNIX_EPOCH.elapsed()
}

/// The system clock can stand this far past the Unix epoch, or before the epoch: a look at it was
/// answered so.
pub closed spec fn clock_stands(since: Option<Duration>) -> bool {
    exists|reading: Result<Duration, std::time::SystemTimeError>|
        #[trigger] call_ensures(epoch_elapsed, (), reading) && since == match reading {
            Ok(duration) => Some(duration),
            Err(_) => None,
        }
}

/// `now` is a reading of the clock, as [`unix_timestamp_millis`] hands them out.
pub open spec fn clock_reads(now: i64) -> bool {
    call_ensures(unix_timestamp_millis, (), now)
}

/// The two's complement value that `x` takes in 64 bits.
pub open spec fn wrapped(x: int) -> int {
    let low = x % 0x1_0000_0000_0000_0000;
    if low < 0x8000_0000_0000_0000 {
        low
    } else {
        low - 0x1_0000_0000_0000_0000
    }
}

/// The timestamp at which something stored at `now` with a lifetime of `ttl` milliseconds
/// expires.
pub open spec fn expiry(now: i64, ttl: u128) -> int {
    wrapped(now + ttl)
}

/// Whether a timestamp lies at or before `now`.
pub open spec fn has_expired(now: i64, expires_at: i64) -> bool {
    now >= expires_at
}

/// The timestamp that a clock reading stands for: the milliseconds since the Unix epoch, as far as
/// timestamps reach. `None` is the reading of a clock that stands before the epoch, which counts as
/// standing at it.
pub open spec fn timestamp(reading: Option<u128>) -> int {
    match reading {
        Some(since) => if since <= i64::MAX {
            since as int
        } else {
            i64::MAX as int
        },
        None => 0,
    }
}

/// Keeps the low 64 bits of `millis` as a signed number.
pub fn low_bits(millis: u128) -> (value: i64)
    ensures
        value == wrapped(millis as int),
{
    let low: u64 = (millis % 0x1_0000_0000_0000_0000) as u64;
    if low < 0x8000_0000_0000_0000 {
        low as i64
    } else {
        (low - 0x8000_0000_0000_0000) as i64 + i64::MIN
    }
}

/// Turns a clock reading into a timestamp.
pub fn timestamp_of(reading: Option<u128>) -> (value: i64)
    ensures
        value == timestamp(reading),
{
    match reading {
        Some(since) => {
            if since <= i64::MAX as u128 {
                since as i64
            } else {
                i64::MAX
            }
        },
        None => 0,
    }
}

/// The whole milliseconds in an optional duration.
pub open spec fn optional_millis(since: Option<Duration>) -> Option<u128> {
    match since {
        Some(duration) => Some(duration_millis(duration)),
        None => None,
    }
}

/// The timestamp of a clock that has moved `since` past the Unix epoch, or has not reached it.
pub fn timestamp_after(since: Option<Duration>) -> (value: i64)
    ensures
        value == timestamp(optional_millis(since)),
{
    match since {
        Some(duration) => timestamp_of(Some(as_millis(duration))),
        None => timestamp_of(None),
    }
}

/// Returns the current Unix timestamp in milliseconds: how far the clock has moved past the epoch,
/// put through [`timestamp_after`]. It is never negative.
///
/// A clock that stands before the epoch has no such timestamp; callers that cannot do without one
/// look at the clock first.
pub fn unix_timestamp_millis() -> (now: i64)
    ensures
        now >= 0,
        now == 0 || exists|since: Duration|
            now == timestamp(Some(#[trigger] duration_millis(since))),
        exists|since: Option<Duration>| #[trigger]
            clock_stands(since) && now == timestamp(optional_millis(since)),
{
    match epoch_elapsed() {
        Ok(since) => {
            assert(clock_stands(Some(since)));
            timestamp_after(Some(since))
        },
        Err(_) => {
            assert(clock_stands(None));
            timestamp_after(None)
        },
    }
}

/// The timestamp at which something stored at `now` with a lifetime of `ttl` expires.
pub fn expires_at(now: i64, ttl: Duration) -> (value: i64)
    ensures
        value == expiry(now, duration_millis(ttl)),
{
    now.wrapping_add(low_bits(as_millis(ttl)))
}

/// Checks if an entry has expired based on its timestamp, at the time `now`.
pub fn is_expired(now: i64, expires_at: i64) -> (expired: bool)
    ensures
        expired == has_expired(now, expires_at),
{
    now >= expires_at
}

/// A lifetime that fits in the range of timestamps ends exactly that many milliseconds later, and
/// until then nothing stored with it has expired.
pub proof fn lifetime_is_exact(now: i64, ttl: u128, at: i64)
    requires
        now + ttl <= i64::MAX,
    ensures
        expiry(now, ttl) == now + ttl,
        has_expired(at, expiry(now, ttl) as i64) <==> at - now >= ttl,
{
}

/// A timestamp handed out is a look at the clock: the whole milliseconds since the Unix epoch, as
/// many as a timestamp can tell, and none where the clock stands before it.
proof fn timestamps_are_looks_at_the_clock(now: i64)
    requires
        call_ensures(unix_timestamp_millis, (), now),
    ensures
        exists|reading: Result<Duration, std::time::SystemTimeError>|
            {
                &&& #[trigger] call_ensures(epoch_elapsed, (), reading)
                &&& reading matches Ok(since) ==> {
                    &&& now <= duration_millis(since)
                    &&& duration_millis(since) <= i64::MAX ==> now == duration_millis(since)
                    &&& duration_millis(since) > i64::MAX ==> now == i64::MAX
                }
                &&& reading is Err ==> now == 0
            },
{
}

/// Turning a reading of the clock into a timestamp keeps its milliseconds, as many as a timestamp
/// can tell: a later reading never gives an earlier timestamp.
pub proof fn timestamps_keep_milliseconds(
    earlier: u128,
    later: u128,
    first: i64,
    second: i64,
    start: i64,
)
    requires
        call_ensures(timestamp_of, (Some(earlier),), first),
        call_ensures(timestamp_of, (Some(later),), second),
        call_ensures(timestamp_of, (None,), start),
    ensures
        earlier <= i64::MAX ==> first == earlier,
        earlier > i64::MAX ==> first == i64::MAX,
        earlier <= later ==> first <= second,
        start == 0,
        start <= first,
{
}

/// Turning what has passed since the Unix epoch into a timestamp keeps its milliseconds, as many as
/// a timestamp can tell.
pub proof fn durations_keep_milliseconds(since: Duration, value: i64, start: i64)
    requires
        call_ensures(timestamp_after, (Some(since),), value),
        call_ensures(timestamp_after, (None,), start),
    ensures
        duration_millis(since) <= i64::MAX ==> value == duration_millis(since),
        duration_millis(since) > i64::MAX ==> value == i64::MAX,
        start == 0,
{
}

/// An expiry lies the whole lifetime ahead, counted in the sixty-four bits of a timestamp; it is
/// exactly that far ahead wherever a timestamp can tell it.
pub proof fn expiries_lie_a_lifetime_ahead(now: i64, ttl: Duration, value: i64)
    requires
        call_ensures(expires_at, (now, ttl), value),
    ensures
        (value - now - duration_millis(ttl)) % 0x1_0000_0000_0000_0000 == 0,
        now + duration_millis(ttl) <= i64::MAX ==> value == now + duration_millis(ttl),
{
    let (sum, two64) = (now + duration_millis(ttl), 0x1_0000_0000_0000_0000int);
    assert(value == wrapped(sum));
    assert((value - sum) % two64 == 0);
}

/// Something has expired from the very millisecond of its expiry on, and not before.
pub proof fn expiry_is_a_moment(now: i64, at: i64, expired: bool)
    requires
        call_ensures(is_expired, (now, at), expired),
    ensures
        now < at ==> !expired,
        now == at ==> expired,
        now > at ==> expired,
{
}

/// The low bits of a number of milliseconds differ from it by a multiple of what sixty-four bits
/// hold, and are the number itself where a timestamp can tell it.
pub proof fn low_bits_lose_whole_rounds(millis: u128, value: i64)
    requires
        call_ensures(low_bits, (millis,), value),
    ensures
        (value - millis) % 0x1_0000_0000_0000_0000 == 0,
        millis <= i64::MAX ==> value == millis,
{
    assert(value == wrapped(millis as int));
}

} // verus!
