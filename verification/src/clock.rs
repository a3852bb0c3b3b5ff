//! The wall clock, and the ISO-8601 text of an instant.
//!
//! The clock is std's, the text is `chrono`'s. A clock that reads before the
//! epoch, or an instant that `chrono` cannot hold, gives no time: nothing
//! here fails on it.

use vstd::prelude::*;

verus! {

/// A reading of the clock: whole seconds since the epoch and the nanoseconds
/// of the second under way; nothing where the clock reads before the epoch.
pub type Reading = Option<(u64, u32)>;

/// The text that `chrono` writes for the instant `secs` seconds and `nanos`
/// nanoseconds after the epoch, in UTC: what `DateTime::to_rfc3339` gives
/// for the result of `DateTime::from_timestamp`, or nothing where the
/// latter holds no such instant.
pub uninterp spec fn rfc3339_text(secs: int, nanos: int) -> Option<Seq<char>>;

/// The view of a text that may be missing.
pub open spec fn text_view(text: Option<String>) -> Option<Seq<char>> {
    match text {
        Some(t) => Some(t@),
        None => None,
    }
}

/// The ISO-8601 text of a clock reading, where there is one.
pub open spec fn timestamp_spec(reading: Reading) -> Option<Seq<char>> {
    match reading {
        Some((secs, nanos)) => if secs <= i64::MAX {
            rfc3339_text(secs as int, nanos as int)
        } else {
            None
        },
        None => None,
    }
}

/// The milliseconds since the epoch of a clock reading.
pub open spec fn millis_spec(reading: Reading) -> Option<u128> {
    match reading {
        Some((secs, nanos)) => Some((secs * 1000 + nanos / 1_000_000) as u128),
        None => None,
    }
}

/// `SystemTime::now().duration_since(UNIX_EPOCH)`: the seconds and
/// nanoseconds of the duration, or nothing where the call reports that the
/// clock reads before the epoch. The reading differs from call to call, so
/// nothing is stated of it.
#[verifier::external_body]
pub(crate) fn epoch_reading() -> Reading {
    match std::time::SystemTime::now().duration_since(std::time::UNIX_EPOCH) {
        Ok(d) => Some((d.as_secs(), d.subsec_nanos())),
        Err(_) => None,
    }
}

/// `chrono::DateTime::from_timestamp` followed by `DateTime::to_rfc3339`:
/// the text named by `rfc3339_text`. Such a text holds a year of at least
/// four characters, `-MM-DDTHH:MM:SS` and the offset `+00:00`, so it is
/// never shorter than 25 characters.
#[verifier::external_body]
pub(crate) fn format_timestamp(secs: i64, nanos: u32) -> (r: Option<String>)
    ensures
        text_view(r) == rfc3339_text(secs as int, nanos as int),
        r is Some ==> r.unwrap()@.len() >= 25,
{
    match chrono::DateTime::from_timestamp(secs, nanos) {
        Some(t) => Some(t.to_rfc3339()),
        None => None,
    }
}

/// The ISO-8601 text of a clock reading.
pub fn timestamp_text(reading: Reading) -> (r: Option<String>)
    ensures
        text_view(r) == timestamp_spec(reading),
        r is Some ==> r.unwrap()@.len() >= 25,
{
    match reading {
        Some((secs, nanos)) => {
            if secs <= 0x7fff_ffff_ffff_ffff {
                format_timestamp(secs as i64, nanos)
            } else {
                None
            }
        },
        None => None,
    }
}

/// The milliseconds since the epoch of a clock reading.
pub fn epoch_millis(reading: Reading) -> (r: Option<u128>)
    ensures
        r == millis_spec(reading),
{
    match reading {
        Some((secs, nanos)) => {
            let whole: u128 = secs as u128 * 1000;
            let part: u128 = (nanos / 1_000_000) as u128;
            Some(whole + part)
        },
        None => None,
    }
}

} // verus!
