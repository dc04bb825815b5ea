//! Moments in time, counted in seconds and nanoseconds since the beginning of
//! 1970 in UTC, and the text that the answers carry for them.

use vstd::prelude::*;

verus! {

/// The last second of the year 9999: later moments have no year of four
/// digits.
pub const LAST_SECOND: u64 = 253_402_300_799;

/// The nanoseconds in a second.
pub const NANOS_PER_SECOND: u32 = 1_000_000_000;

/// Why a moment has no text.
#[derive(Clone, Copy, Debug, PartialEq, Eq)]
pub enum ClockError {
    /// The clock reads a time before 1970.
    BeforeEpoch,
    /// The moment lies after the year 9999, or its nanoseconds are no part
    /// of a second.
    OutOfRange,
}

/// Whether a moment can be written with a year of four digits.
pub open spec fn has_text(secs: u64, nanos: u32) -> bool {
    secs <= LAST_SECOND && nanos < NANOS_PER_SECOND
}

/// Every character of the text is one of the digits `0` to `9`.
pub open spec fn all_digits(s: Seq<char>) -> bool {
    forall|i: int| 0 <= i < s.len() ==> '0' <= #[trigger] s[i] <= '9'
}

/// The form of a moment in UTC by RFC 3339: the date as `YYYY-MM-DD`, a `T`,
/// the time as `hh:mm:ss`, then no fraction of a second or a point and three,
/// six or nine digits, and the offset `+00:00`.
pub open spec fn is_utc_timestamp(s: Seq<char>) -> bool {
    &&& s.len() == 25 || s.len() == 29 || s.len() == 32 || s.len() == 35
    &&& all_digits(s.subrange(0, 4))
    &&& s[4] == '-'
    &&& all_digits(s.subrange(5, 7))
    &&& s[7] == '-'
    &&& all_digits(s.subrange(8, 10))
    &&& s[10] == 'T'
    &&& all_digits(s.subrange(11, 13))
    &&& s[13] == ':'
    &&& all_digits(s.subrange(14, 16))
    &&& s[16] == ':'
    &&& all_digits(s.subrange(17, 19))
    &&& s.len() > 25 ==> s[19] == '.' && all_digits(s.subrange(20, s.len() - 6))
    &&& s.subrange(s.len() - 6, s.len() as int) == seq!['+', '0', '0', ':', '0', '0']
}

/// The text that `chrono::DateTime::to_rfc3339` writes for the moment that
/// `chrono::DateTime::from_timestamp` makes of seconds and nanoseconds.
pub uninterp spec fn utc_text(secs: int, nanos: int) -> Seq<char>;

/// Makes a moment with `chrono::DateTime::from_timestamp` and writes it out
/// with `chrono::DateTime::to_rfc3339`. Up to the year 9999 and with the
/// nanoseconds below a second, the first gives a moment and the second writes
/// it in the form of `is_utc_timestamp`; the text depends on the two numbers
/// alone.
#[verifier::external_body]
fn render(secs: i64, nanos: u32) -> (stamp: Option<String>)
    requires
        0 <= secs <= LAST_SECOND,
        nanos < NANOS_PER_SECOND,
    ensures
        stamp is Some,
        stamp->0@ == utc_text(secs as int, nanos as int),
        is_utc_timestamp(stamp->0@),
{
    match chrono::DateTime::from_timestamp(secs, nanos) {
        Some(moment) => Some(moment.to_rfc3339()),
        None => None,
    }
}

/// Reads the clock with `std::time::SystemTime::now` and hands the reading
/// out as the seconds and nanoseconds since the beginning of 1970, or `None`
/// where the clock reads an earlier time. The reading depends on when the
/// call is made, so nothing is claimed of it.
#[verifier::external_body]
fn read_clock() -> (reading: Option<(u64, u32)>) {
    match std::time::SystemTime::now().duration_since(std::time::UNIX_EPOCH) {
        Ok(elapsed) => Some((elapsed.as_secs(), elapsed.subsec_nanos())),
        Err(_) => None,
    }
}

/// The text of a moment, where it has one.
pub fn timestamp_at(secs: u64, nanos: u32) -> (stamp: Result<String, ClockError>)
    ensures
        has_text(secs, nanos) ==> (stamp matches Ok(text) && text@ == utc_text(
            secs as int,
            nanos as int,
        ) && is_utc_timestamp(text@)),
        !has_text(secs, nanos) ==> stamp matches Err(ClockError::OutOfRange),
{
    if secs > LAST_SECOND || nanos >= NANOS_PER_SECOND {
        return Err(ClockError::OutOfRange);
    }
    match render(secs as i64, nanos) {
        Some(text) => Ok(text),
        None => Err(ClockError::OutOfRange),
    }
}

/// The text of a reading of the clock: of no reading, there is none.
pub fn timestamp_of(reading: Option<(u64, u32)>) -> (stamp: Result<String, ClockError>)
    ensures
        match reading {
            None => stamp matches Err(ClockError::BeforeEpoch),
            Some((secs, nanos)) => if has_text(secs, nanos) {
                stamp matches Ok(text) && text@ == utc_text(secs as int, nanos as int)
                    && is_utc_timestamp(text@)
            } else {
                stamp matches Err(ClockError::OutOfRange)
            },
        },
{
    match reading {
        Some((secs, nanos)) => timestamp_at(secs, nanos),
        None => Err(ClockError::BeforeEpoch),
    }
}

/// The text of the present moment. It fails where the clock reads a time
/// before 1970 or after the year 9999.
pub fn timestamp_now() -> (stamp: Result<String, ClockError>)
    ensures
        stamp matches Ok(text) ==> is_utc_timestamp(text@),
{
    timestamp_of(read_clock())
}

} // verus!
