//! Reading the wall clock.
//!
//! The engine's calendar gates — market-day checks, the swing-trade guard
//! and the weekly risk-off window — are verified functions of plain calendar
//! values.  This module holds the one trusted call that produces those
//! values from the system clock.

use vstd::prelude::*;

verus! {

/// One reading of the clock, reduced to the values the engine's gates use.
#[derive(Clone, Copy, Debug)]
pub struct ClockReading {
    /// Days since the calendar's day one (chrono's day-of-era count).
    pub days_from_ce: i32,
    /// 0 = Monday … 6 = Sunday.
    pub weekday_from_monday: u8,
    /// 0 – 23.
    pub hour: u8,
}

/// Relies on chrono: `Utc::now` for the current instant,
/// `Datelike::num_days_from_ce` for the day count,
/// `Weekday::num_days_from_monday` (documented 0 – 6) and `Timelike::hour`
/// (documented 0 – 23).  The reading depends on the wall clock, so only the
/// documented ranges are stated.
#[verifier::external_body]
pub fn clock_now() -> (r: ClockReading)
    ensures
        r.weekday_from_monday <= 6,
        r.hour <= 23,
{
    let now = chrono::Utc::now();
    ClockReading {
        days_from_ce: chrono::Datelike::num_days_from_ce(&now),
        weekday_from_monday: chrono::Datelike::weekday(&now).num_days_from_monday() as u8,
        hour: chrono::Timelike::hour(&now) as u8,
    }
}

} // verus!
