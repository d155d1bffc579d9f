//! Daily dig streaks.

use crate::arith::{larger, max_of, nearest, sat_add};
use crate::snapshot::{DigRuntimeTunnel, TunnelView};
use crate::text::{borrow_text, same_text, str_view};
use vstd::prelude::*;

verus! {

/// A calendar date as `chrono` keeps it.
#[verifier::external_type_specification]
#[verifier::external_body]
pub struct ExNaiveDate(chrono::NaiveDate);

/// The calendar date that a text writes in a format, when it is one.
pub uninterp spec fn calendar_date(text: Seq<char>, format: Seq<char>) -> Option<chrono::NaiveDate>;

/// The signed number of days from one date to another.
pub uninterp spec fn days_between(earlier: chrono::NaiveDate, later: chrono::NaiveDate) -> i64;

/// Calls `chrono::NaiveDate::parse_from_str`. The result is named
/// [`calendar_date`]; a parse error of any kind is no date.
#[verifier::external_body]
fn parse_date(text: &str, format: &str) -> (date: Option<chrono::NaiveDate>)
    ensures
        date == calendar_date(text@, format@),
{
    chrono::NaiveDate::parse_from_str(text, format).ok()
}

/// Calls `chrono::NaiveDate::signed_duration_since` and takes the whole days of
/// the difference, named [`days_between`]. A date is no days after itself.
#[verifier::external_body]
fn days_since(later: chrono::NaiveDate, earlier: chrono::NaiveDate) -> (days: i64)
    ensures
        days == days_between(earlier, later),
        later == earlier ==> days == 0,
{
    later.signed_duration_since(earlier).num_days()
}

/// The days from the last dig date to today, when both are dates.
pub open spec fn day_gap(last: Seq<char>, today: Seq<char>) -> Option<i64> {
    match (calendar_date(today, "%Y-%m-%d"@), calendar_date(last, "%Y-%m-%d"@)) {
        (Some(today), Some(last)) => Some(days_between(last, today)),
        _ => None,
    }
}

/// The streak after a dig: it grows by one on the day after the last dig, stays
/// on the same day, and starts over otherwise.
pub open spec fn streak_after(
    streak_days: i64,
    last: Option<Seq<char>>,
    today: Seq<char>,
    gap: Option<i64>,
) -> i64 {
    let existing = larger(streak_days, 0);
    match last {
        None => 1,
        Some(last) => if last == today {
            larger(existing, 1)
        } else if gap == Some(1i64) {
            larger(nearest(existing + 1), 1)
        } else {
            1
        },
    }
}

/// Computes the streak after a dig from the days since the last one.
pub fn next_streak(streak_days: i64, last: Option<&str>, today: &str, gap: Option<i64>) -> (days:
    i64)
    ensures
        days == streak_after(streak_days, str_view(last), today@, gap),
{
    let existing = max_of(streak_days, 0);
    match last {
        None => 1,
        Some(last) => if same_text(last, today) {
            max_of(existing, 1)
        } else {
            match gap {
                Some(days) => if days == 1 {
                    max_of(sat_add(existing, 1), 1)
                } else {
                    1
                },
                None => 1,
            }
        },
    }
}

/// The days from one written date to another.
pub fn date_gap(last: &str, today: &str) -> (gap: Option<i64>)
    ensures
        gap == day_gap(last@, today@),
{
    match (parse_date(today, "%Y-%m-%d"), parse_date(last, "%Y-%m-%d")) {
        (Some(today), Some(last)) => Some(days_since(today, last)),
        _ => None,
    }
}

/// The streak of a tunnel after a dig on `today`.
pub open spec fn tunnel_streak(tunnel: TunnelView, today: Seq<char>) -> i64 {
    streak_after(
        tunnel.streak_days,
        tunnel.streak_last_date,
        today,
        match tunnel.streak_last_date {
            Some(last) => day_gap(last, today),
            None => None,
        },
    )
}

/// Computes the streak of a tunnel after a dig on `today`.
pub fn next_daily_streak(tunnel: &DigRuntimeTunnel, today: &str) -> (days: i64)
    ensures
        days == tunnel_streak(tunnel@, today@),
{
    let last = borrow_text(&tunnel.streak_last_date);
    let gap = match last {
        Some(last) => date_gap(last, today),
        None => None,
    };
    next_streak(tunnel.streak_days, last, today, gap)
}

/// A streak is at least one day after every dig and grows by at most one.
pub proof fn law_streak_is_positive(
    streak_days: i64,
    last: Option<Seq<char>>,
    today: Seq<char>,
    gap: Option<i64>,
)
    ensures
        1 <= streak_after(streak_days, last, today, gap),
        streak_after(streak_days, last, today, gap) <= larger(streak_days, 0) + 1,
{
}

/// A second dig on the same day leaves the streak where the first one put it.
pub proof fn law_second_dig_of_the_day_keeps_the_streak(
    streak_days: i64,
    last: Option<Seq<char>>,
    today: Seq<char>,
    gap: Option<i64>,
    later_gap: Option<i64>,
)
    ensures
        ({
            let days = streak_after(streak_days, last, today, gap);
            streak_after(days, Some(today), today, later_gap) == days
        }),
{
}

} // verus!
