//! Readings of the system's clocks, and the text of a reading.

use vstd::prelude::*;

verus! {

/// `std::time::SystemTime`, carried through as it is.
#[verifier::external_type_specification]
#[verifier::external_body]
pub struct ExSystemTime(std::time::SystemTime);

/// `std::time::Instant`, carried through as it is.
#[verifier::external_type_specification]
#[verifier::external_body]
pub struct ExInstant(std::time::Instant);

/// The RFC 3339 text of the moment that lies the given seconds and
/// nanoseconds behind the beginning of 1970, as `chrono` writes it;
/// `None` where `chrono` holds no such moment.
pub uninterp spec fn rfc3339_of(seconds: int, nanos: int) -> Option<Seq<char>>;

/// `std::time::SystemTime::now`: the present time. It differs from call
/// to call, so nothing is claimed of it.
#[verifier::external_body]
fn system_now() -> std::time::SystemTime {
    std::time::SystemTime::now()
}

/// `SystemTime::duration_since` against `UNIX_EPOCH`: how far a time lies
/// behind the beginning of 1970; `None` where it lies before it.
#[verifier::external_body]
fn since_epoch(time: &std::time::SystemTime) -> Option<std::time::Duration> {
    time.duration_since(std::time::UNIX_EPOCH).ok()
}

/// `Duration::as_secs`: the whole seconds of a duration.
#[verifier::external_body]
fn whole_seconds(span: &std::time::Duration) -> u64 {
    span.as_secs()
}

/// `Duration::subsec_nanos`: what a duration holds beyond its whole
/// seconds, in nanoseconds.
#[verifier::external_body]
fn subsec_nanos(span: &std::time::Duration) -> u32 {
    span.subsec_nanos()
}

/// `Duration::as_millis`: the whole milliseconds of a duration.
#[verifier::external_body]
fn whole_millis(span: &std::time::Duration) -> u128 {
    span.as_millis()
}

/// `std::time::Instant::now`: the present instant.
#[verifier::external_body]
pub(crate) fn instant_now() -> std::time::Instant {
    std::time::Instant::now()
}

/// `Instant::elapsed`: the time since an instant.
#[verifier::external_body]
fn elapsed_since(start: &std::time::Instant) -> std::time::Duration {
    start.elapsed()
}

/// `chrono::DateTime::from_timestamp` and, on the moment that it gives,
/// `DateTime::to_rfc3339`. The first gives no moment for seconds or
/// nanoseconds out of its range; the second writes every moment. The text
/// depends on the two numbers alone.
#[verifier::external_body]
fn rfc3339_text(seconds: i64, nanos: u32) -> (r: Option<String>)
    ensures
        r is Some <==> rfc3339_of(seconds as int, nanos as int) is Some,
        r matches Some(text) ==> rfc3339_of(seconds as int, nanos as int) == Some(text@),
{
    match chrono::DateTime::from_timestamp(seconds, nanos) {
        Some(moment) => Some(moment.to_rfc3339()),
        None => None,
    }
}

/// A reading of the system clock: the time since the beginning of 1970.
#[derive(Debug, Clone, Copy, PartialEq, Eq)]
pub struct ClockReading {
    pub seconds: u64,
    pub nanos: u32,
}

/// The RFC 3339 text of the beginning of 1970.
pub open spec fn epoch_text() -> Seq<char> {
    "1970-01-01T00:00:00+00:00"@
}

/// The RFC 3339 text of a reading. Where there is no reading (the clock
/// stands before 1970), or the reading lies beyond what can be written,
/// the beginning of 1970 stands for it.
pub open spec fn stamp_text(reading: Option<ClockReading>) -> Seq<char> {
    match reading {
        Some(at) => if at.seconds <= i64::MAX {
            match rfc3339_of(at.seconds as int, at.nanos as int) {
                Some(text) => text,
                None => epoch_text(),
            }
        } else {
            epoch_text()
        },
        None => epoch_text(),
    }
}

/// Reads the system clock; `None` where it stands before 1970.
pub fn read_clock() -> Option<ClockReading> {
    let now = system_now();
    match since_epoch(&now) {
        Some(span) => Some(
            ClockReading { seconds: whole_seconds(&span), nanos: subsec_nanos(&span) },
        ),
        None => None,
    }
}

/// The RFC 3339 text of a reading.
pub fn rfc3339_stamp(reading: Option<ClockReading>) -> (r: String)
    ensures
        r@ == stamp_text(reading),
{
    match reading {
        Some(at) => {
            if at.seconds <= 9223372036854775807u64 {
                match rfc3339_text(at.seconds as i64, at.nanos) {
                    Some(text) => text,
                    None => String::from_str("1970-01-01T00:00:00+00:00"),
                }
            } else {
                String::from_str("1970-01-01T00:00:00+00:00")
            }
        },
        None => String::from_str("1970-01-01T00:00:00+00:00"),
    }
}

/// The RFC 3339 text of the present moment.
pub fn utc_now_rfc3339() -> (r: String)
    ensures
        exists|reading: Option<ClockReading>| r@ == stamp_text(reading),
{
    let reading = read_clock();
    rfc3339_stamp(reading)
}

/// The present moment in whole seconds since the beginning of 1970.
pub fn unix_seconds() -> Option<u64> {
    match read_clock() {
        Some(at) => Some(at.seconds),
        None => None,
    }
}

/// The whole milliseconds since an instant, as a signed word.
pub(crate) fn elapsed_millis(start: &std::time::Instant) -> i64 {
    let span = elapsed_since(start);
    let millis: u128 = whole_millis(&span);
    #[verifier::truncate]
    (millis as i64)
}

} // verus!
