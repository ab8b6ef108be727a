//! Text of dates and times, as `chrono` displays them.
use vstd::prelude::*;
use crate::value::{UtcTimestamp, CalendarDate};
use crate::text::quote_free;

verus! {

/// The text `chrono` displays for the UTC instant `secs`/`nanos` after the
/// epoch (such as `2024-01-31 12:00:00 UTC`), or `None` when
/// `DateTime::<Utc>::from_timestamp` rejects it.
pub uninterp spec fn utc_display(secs: i64, nanos: u32) -> Option<Seq<char>>;

/// The text `chrono` displays for the date that is day `days` counting
/// 0001-01-01 as day one (such as `2024-01-31`), or `None` when
/// `NaiveDate::from_num_days_from_ce_opt` rejects it.
pub uninterp spec fn date_display(days: i32) -> Option<Seq<char>>;

/// Instants that `chrono` can hold: from -262143-01-01 00:00:00 to
/// 262142-12-31 23:59:59 (the years of `chrono`'s dates), with less than a
/// second of nanoseconds, or less than two seconds in the last second of a
/// minute (a leap second).
pub open spec fn utc_in_range(secs: i64, nanos: u32) -> bool {
    &&& -8_334_601_228_800 <= secs && secs <= 8_210_266_876_799
    &&& nanos < 1_000_000_000 || (nanos < 2_000_000_000 && secs % 60 == 59)
}

/// Day numbers that `chrono` can hold, counting 0001-01-01 as day one: from
/// -262143-01-01 to 262142-12-31.
pub open spec fn date_in_range(days: i32) -> bool {
    -95_746_129 <= days && days <= 95_745_399
}

/// Builds the instant with `chrono::DateTime::<Utc>::from_timestamp` and
/// renders it with its `Display`. The contract claims that the text is a
/// function of the two numbers and that there is one exactly for the
/// instants in [`utc_in_range`]: `from_timestamp` fails only when the day
/// falls outside `chrono`'s years, or when the nanoseconds reach two seconds,
/// or one second outside a minute's last second. It also claims that the
/// text holds no double quote: `Display` writes digits, signs, `-`, `:`,
/// `.`, a space and `UTC`.
#[verifier::external_body]
fn chrono_utc_text(secs: i64, nanos: u32) -> (r: Option<String>)
    ensures
        opt_view(r) == utc_display(secs, nanos),
        r is Some <==> utc_in_range(secs, nanos),
        r matches Some(t) ==> quote_free(t@),
{
    match chrono::DateTime::<chrono::Utc>::from_timestamp(secs, nanos) {
        Some(d) => Some(d.to_string()),
        None => None,
    }
}

/// Builds the date with `chrono::NaiveDate::from_num_days_from_ce_opt` and
/// renders it with its `Display`. The contract claims that the text is a
/// function of the number and that there is one exactly for the days in
/// [`date_in_range`]: the function fails only for a year outside `chrono`'s.
/// It also claims that the text holds no double quote: `Display` writes
/// digits, signs and `-`.
#[verifier::external_body]
fn chrono_date_text(days: i32) -> (r: Option<String>)
    ensures
        opt_view(r) == date_display(days),
        r is Some <==> date_in_range(days),
        r matches Some(t) ==> quote_free(t@),
{
    match chrono::NaiveDate::from_num_days_from_ce_opt(days) {
        Some(d) => Some(d.to_string()),
        None => None,
    }
}

/// The view of an optional string.
pub open spec fn opt_view(o: Option<String>) -> Option<Seq<char>> {
    match o {
        Some(s) => Some(s@),
        None => None,
    }
}

impl UtcTimestamp {
    /// The text of this instant, as `chrono` displays it.
    pub fn text(&self) -> (r: Option<String>)
        ensures
            opt_view(r) == utc_display(self.secs, self.nanos),
            r is Some <==> utc_in_range(self.secs, self.nanos),
            r matches Some(t) ==> quote_free(t@),
    {
        chrono_utc_text(self.secs, self.nanos)
    }
}

impl UtcTimestamp {
    /// Whether `chrono` can hold this instant, as [`utc_in_range`] states.
    pub fn in_range(&self) -> (r: bool)
        ensures
            r == utc_in_range(self.secs, self.nanos),
    {
        if self.secs < -8_334_601_228_800 || self.secs > 8_210_266_876_799 {
            return false;
        }
        if self.nanos < 1_000_000_000 {
            return true;
        }
        // Shifted by a multiple of a minute, the seconds are not negative.
        let shifted: i64 = self.secs + 8_334_601_228_800;
        assert(8_334_601_228_800int % 60 == 0);
        assert((shifted % 60 == 59) == (self.secs % 60 == 59));
        self.nanos < 2_000_000_000 && shifted % 60 == 59
    }
}

impl CalendarDate {
    /// Whether `chrono` can hold this date, as [`date_in_range`] states.
    pub fn in_range(&self) -> (r: bool)
        ensures
            r == date_in_range(self.days_from_ce),
    {
        -95_746_129 <= self.days_from_ce && self.days_from_ce <= 95_745_399
    }

    /// The text of this date, as `chrono` displays it.
    pub fn text(&self) -> (r: Option<String>)
        ensures
            opt_view(r) == date_display(self.days_from_ce),
            r is Some <==> date_in_range(self.days_from_ce),
            r matches Some(t) ==> quote_free(t@),
    {
        chrono_date_text(self.days_from_ce)
    }
}

} // verus!
