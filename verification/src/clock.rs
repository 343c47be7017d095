//! Wall-clock readings: the local time of day shown on chat messages and the
//! Unix time that names a new chat thread.
use vstd::prelude::*;

verus! {

/// The value of a two-character run of ASCII digits.
pub open spec fn two_digit_value(a: char, b: char) -> int {
    ((a as u32) - 48) * 10 + ((b as u32) - 48)
}

/// An ASCII digit.
pub open spec fn is_digit(c: char) -> bool {
    48 <= (c as u32) <= 57
}

/// A time of day `HH:MM`: hour 00 to 23, minute 00 to 59.
pub open spec fn is_clock_text(s: Seq<char>) -> bool {
    &&& s.len() == 5
    &&& is_digit(s[0]) && is_digit(s[1]) && s[2] == ':' && is_digit(s[3]) && is_digit(s[4])
    &&& two_digit_value(s[0], s[1]) <= 23
    &&& two_digit_value(s[3], s[4]) <= 59
}

/// Reads `SystemTime::now()`, turns it into a UTC time with
/// `chrono::DateTime::from_timestamp`, moves it to the local zone with
/// `with_timezone(&chrono::Local)` and formats it with `format("%H:%M")`:
/// the local hour and minute, each as two zero-padded digits. There is no
/// reading when the clock is set before 1970 or past chrono's range, where
/// `chrono::Local::now()` would panic. Which time it is depends on the clock.
/// The local-zone lookup relies, as chrono does, on the zone data it loaded
/// giving an offset for the instant; that is not stated here.
#[verifier::external_body]
pub(crate) fn local_hour_minute() -> (r: Option<String>)
    ensures
        r matches Some(t) ==> is_clock_text(t@),
{
    let since_epoch = std::time::SystemTime::now().duration_since(std::time::UNIX_EPOCH).ok()?;
    let secs = i64::try_from(since_epoch.as_secs()).ok()?;
    let utc = chrono::DateTime::from_timestamp(secs, since_epoch.subsec_nanos())?;
    Some(utc.with_timezone(&chrono::Local).format("%H:%M").to_string())
}

/// Calls `SystemTime::now().duration_since(UNIX_EPOCH)` and takes the whole
/// milliseconds, or zero for a clock set before 1970. Any value can come back.
#[verifier::external_body]
pub(crate) fn unix_time_millis() -> (r: u128) {
    std::time::SystemTime::now().duration_since(std::time::UNIX_EPOCH).unwrap_or_default().as_millis()
}

} // verus!
