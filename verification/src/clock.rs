//! The server's local clock, read through `chrono`.
//!
//! Instants are counted in microseconds since 1970-01-01T00:00:00 of the
//! local wall clock (the naive local date-time, as the services store it);
//! calendar days are counted from 0001-01-01 of the proleptic Gregorian
//! calendar, day 1 being that date (`NaiveDate::num_days_from_ce`).

use vstd::prelude::*;

verus! {

/// `chrono::Local::now().naive_local()` in microseconds since 1970-01-01.
/// It reads the clock: nothing is promised of the value.
#[verifier::external_body]
pub(crate) fn local_now() -> (now: i64) {
    chrono::Local::now().naive_local().and_utc().timestamp_micros()
}

/// `chrono::Local::now().date_naive()` as a day number from the Common Era.
/// It reads the clock: nothing is promised of the value.
#[verifier::external_body]
pub(crate) fn local_today() -> (today: i32) {
    chrono::Datelike::num_days_from_ce(&chrono::Local::now().date_naive())
}

/// Microseconds in one minute.
pub const MINUTE_MICROS: i64 = 60_000_000;

/// Microseconds in one hour.
pub const HOUR_MICROS: i64 = 3_600_000_000;

} // verus!
