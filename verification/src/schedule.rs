//! The re-check schedule: when a tracked series is next due for a fetch.

use vstd::prelude::*;
use crate::dates::{Date, Timestamp, SECONDS_PER_DAY, SECONDS_PER_WEEK};
use crate::store::Series;

verus! {

/// Why a series was given its next-due time.
#[derive(Clone, Copy, Debug, PartialEq, Eq, Structural, Hash)]
pub enum UpdateReason {
    NextEpisodeRelease,
    SeriesOverForLong,
    SeriesRecentlyOver,
    SeriesInProduction,
}

impl UpdateReason {
    /// The reason as a short phrase, for log lines.
    pub fn as_str(&self) -> (r: &'static str) {
        match self {
            UpdateReason::NextEpisodeRelease => "next episode release",
            UpdateReason::SeriesOverForLong => "series is over for long",
            UpdateReason::SeriesRecentlyOver => "series is recently over",
            UpdateReason::SeriesInProduction => "series in production",
        }
    }
}

/// Whether the last known episode aired at least four weeks before `now`
/// (an unknown air date counts as long ago).
pub open spec fn spec_last_ep_is_old(series: Series, now: Timestamp) -> bool {
    match series.last_episode_air_date.0 {
        Some(d) => now.spec_day() - d.day_number() >= 28,
        None => true,
    }
}

/// The next-due time, as seconds since the epoch. A decision table,
/// first match wins:
/// 1. a known next-episode air date is due at 23:59:59 UTC on that date,
///    whatever the status;
/// 2. an ended or canceled series whose last episode is unknown or at
///    least four weeks old is due four weeks after its last update;
/// 3. an ended or canceled series whose last episode is more recent is
///    due one week after its last update;
/// 4. any other series is due one week after its last update.
pub open spec fn spec_next_due_secs(series: Series, now: Timestamp) -> int {
    match series.next_episode_air_date.0 {
        Some(d) => d.day_number() * (SECONDS_PER_DAY as int) + 86399,
        None => if series.status.spec_is_over() {
            if spec_last_ep_is_old(series, now) {
                series.update_timestamp.secs + 4 * (SECONDS_PER_WEEK as int)
            } else {
                series.update_timestamp.secs + (SECONDS_PER_WEEK as int)
            }
        } else {
            series.update_timestamp.secs + (SECONDS_PER_WEEK as int)
        },
    }
}

/// The reason paired with `spec_next_due_secs`, case by case.
pub open spec fn spec_update_reason(series: Series, now: Timestamp) -> UpdateReason {
    match series.next_episode_air_date.0 {
        Some(_) => UpdateReason::NextEpisodeRelease,
        None => if series.status.spec_is_over() {
            if spec_last_ep_is_old(series, now) {
                UpdateReason::SeriesOverForLong
            } else {
                UpdateReason::SeriesRecentlyOver
            }
        } else {
            UpdateReason::SeriesInProduction
        },
    }
}

/// True when adding up to four weeks to the last update cannot overflow;
/// holds of any timestamp a real clock gives.
pub open spec fn update_timestamp_in_range(series: Series) -> bool {
    series.update_timestamp.secs + 4 * (SECONDS_PER_WEEK as int) <= i64::MAX as int
}

/// When a series is next due for a re-fetch, and why.
pub fn determine_next_update_timestamp(series: &Series, now: Timestamp) -> (r: (
    Timestamp,
    UpdateReason,
))
    requires
        series.wf(),
        update_timestamp_in_range(*series),
    ensures
        r.0.secs as int == spec_next_due_secs(*series, now),
        r.1 == spec_update_reason(*series, now),
{
    if let Some(next_ep_date) = series.next_episode_air_date.0 {
        // A known next episode needs no re-check before its release day;
        // the end of that day tolerates time-zone skew in the source date.
        return (next_ep_date.end_of_day(), UpdateReason::NextEpisodeRelease);
    }

    if series.status.is_over() {
        // A series that has been over for at least four weeks is unlikely
        // to change; one more recently over may still get corrections.
        let last_ep_is_old = match series.last_episode_air_date.0 {
            Some(d) => now.day() - d.to_day_number() >= 28,
            None => true,
        };
        if last_ep_is_old {
            (
                Timestamp { secs: series.update_timestamp.secs + 4 * SECONDS_PER_WEEK },
                UpdateReason::SeriesOverForLong,
            )
        } else {
            (
                Timestamp { secs: series.update_timestamp.secs + SECONDS_PER_WEEK },
                UpdateReason::SeriesRecentlyOver,
            )
        }
    } else {
        (
            Timestamp { secs: series.update_timestamp.secs + SECONDS_PER_WEEK },
            UpdateReason::SeriesInProduction,
        )
    }
}

/// Whether an update should be attempted now. Forcing makes the entry
/// eligible unconditionally; otherwise it is eligible exactly when `now`
/// has reached its next-due time.
pub fn should_update(series: &Series, now: Timestamp, force: bool) -> (r: bool)
    requires
        series.wf(),
        update_timestamp_in_range(*series),
    ensures
        r == (force || now.secs as int >= spec_next_due_secs(*series, now)),
{
    if force {
        return true;
    }
    let (next_due, _reason) = determine_next_update_timestamp(series, now);
    now.secs >= next_due.secs
}

/// With a known next-episode air date, the next-due time is 23:59:59 UTC
/// on that date, independent of status.
pub proof fn law_known_next_episode(series: Series, now: Timestamp)
    requires
        series.next_episode_air_date.0 is Some,
    ensures
        spec_next_due_secs(series, now) == series.next_episode_air_date.0.unwrap().day_number() * (
        SECONDS_PER_DAY as int) + 86399,
        spec_update_reason(series, now) == UpdateReason::NextEpisodeRelease,
{
}

/// An ended or canceled series with the last episode unknown or at least
/// four weeks old is due four weeks after its last update.
pub proof fn law_settled_series(series: Series, now: Timestamp)
    requires
        series.next_episode_air_date.0 is None,
        series.status.spec_is_over(),
        spec_last_ep_is_old(series, now),
    ensures
        spec_next_due_secs(series, now) == series.update_timestamp.secs + 4 * (
        SECONDS_PER_WEEK as int),
        spec_update_reason(series, now) == UpdateReason::SeriesOverForLong,
{
}

/// An ended or canceled series whose last episode aired within four weeks
/// is due one week after its last update.
pub proof fn law_recently_over_series(series: Series, now: Timestamp)
    requires
        series.next_episode_air_date.0 is None,
        series.status.spec_is_over(),
        !spec_last_ep_is_old(series, now),
    ensures
        spec_next_due_secs(series, now) == series.update_timestamp.secs + (SECONDS_PER_WEEK as int),
        spec_update_reason(series, now) == UpdateReason::SeriesRecentlyOver,
{
}

/// The settled test is monotone in the episode's age: when a last
/// episode that aired on `d2` already counts as at least four weeks old,
/// one that aired no later, on `d1`, counts so too.
pub proof fn law_earlier_last_episode_stays_settled(d1: Date, d2: Date, now: Timestamp)
    requires
        d1.valid(),
        d2.valid(),
        crate::search::spec_date_le(d1, d2),
        now.spec_day() - d2.day_number() >= 28,
    ensures
        now.spec_day() - d1.day_number() >= 28,
{
    crate::search::lemma_day_number_respects_order(d1, d2);
}

/// A series in production or returning, with no known next-episode date,
/// is due one week after its last update.
pub proof fn law_in_production_series(series: Series, now: Timestamp)
    requires
        series.next_episode_air_date.0 is None,
        !series.status.spec_is_over(),
    ensures
        spec_next_due_secs(series, now) == series.update_timestamp.secs + (SECONDS_PER_WEEK as int),
        spec_update_reason(series, now) == UpdateReason::SeriesInProduction,
{
}

} // verus!
