use tvtrack::dates::{Date, OptionalDate, Timestamp};
use tvtrack::mime::MimeType;
use tvtrack::schedule::{determine_next_update_timestamp, should_update, UpdateReason};
use tvtrack::series::{SeriesDetails, SeriesId, SeriesStatus};
use tvtrack::store::{PosterId, Series};

const DAY: i64 = 86400;
const WEEK: i64 = 604800;

fn ymd(y: i32, m: u8, d: u8) -> Date {
    tvtrack::dates::date_from_ymd(y, m, d).expect("valid date")
}

fn details(id: i32, status: SeriesStatus) -> SeriesDetails {
    SeriesDetails {
        id: SeriesId(id),
        name: String::from("Some Show"),
        first_air_date: OptionalDate(Some(ymd(2019, 3, 14))),
        number_of_seasons: 2,
        number_of_episodes: 16,
        last_episode_to_air: None,
        next_episode_to_air: None,
        status,
        in_production: false,
        poster_path: String::from("/abc.jpg"),
    }
}

fn series(status: SeriesStatus, update_secs: i64) -> Series {
    Series {
        tmdb_id: SeriesId(7),
        poster_id: PosterId(1),
        title: String::from("Some Show"),
        first_air_date: OptionalDate(Some(ymd(2019, 3, 14))),
        status,
        in_production: false,
        last_episode_air_date: OptionalDate(None),
        next_episode_air_date: OptionalDate(None),
        details: details(7, status),
        update_timestamp: Timestamp { secs: update_secs },
    }
}

#[test]
fn known_next_episode_is_due_at_end_of_that_day() {
    // scenario: status = ReturningSeries, next episode 2024-05-01,
    // last update 2024-04-20 -> due 2024-05-01T23:59:59Z
    let update = ymd(2024, 4, 20).to_day_number() * DAY;
    let mut s = series(SeriesStatus::ReturningSeries, update);
    s.next_episode_air_date = OptionalDate(Some(ymd(2024, 5, 1)));
    let now = Timestamp { secs: update + DAY };
    let (due, reason) = determine_next_update_timestamp(&s, now);
    assert_eq!(due.secs, 1714607999); // 2024-05-01T23:59:59Z
    assert_eq!(reason, UpdateReason::NextEpisodeRelease);
}

#[test]
fn known_next_episode_wins_over_status() {
    let update = ymd(2024, 4, 20).to_day_number() * DAY;
    for status in [
        SeriesStatus::InProduction,
        SeriesStatus::ReturningSeries,
        SeriesStatus::Ended,
        SeriesStatus::Canceled,
    ] {
        let mut s = series(status, update);
        s.next_episode_air_date = OptionalDate(Some(ymd(2024, 5, 1)));
        let now = Timestamp { secs: update };
        let (due, _) = determine_next_update_timestamp(&s, now);
        assert_eq!(due.secs, 1714607999);
    }
}

#[test]
fn settled_ended_series_waits_four_weeks() {
    // last episode unknown
    let update = ymd(2024, 4, 20).to_day_number() * DAY;
    let s = series(SeriesStatus::Ended, update);
    let now = Timestamp { secs: update + DAY };
    let (due, reason) = determine_next_update_timestamp(&s, now);
    assert_eq!(due.secs, update + 4 * WEEK);
    assert_eq!(reason, UpdateReason::SeriesOverForLong);

    // last episode ten weeks before now
    let mut s2 = series(SeriesStatus::Canceled, update);
    let now2 = Timestamp { secs: ymd(2024, 4, 21).to_day_number() * DAY };
    s2.last_episode_air_date = OptionalDate(Some(ymd(2024, 2, 11)));
    let (due2, reason2) = determine_next_update_timestamp(&s2, now2);
    assert_eq!(due2.secs, update + 4 * WEEK);
    assert_eq!(reason2, UpdateReason::SeriesOverForLong);
}

#[test]
fn recently_over_series_waits_one_week() {
    let update = ymd(2024, 4, 20).to_day_number() * DAY;
    let now = Timestamp { secs: ymd(2024, 4, 21).to_day_number() * DAY };
    let mut s = series(SeriesStatus::Ended, update);
    // two weeks before now: within four weeks
    s.last_episode_air_date = OptionalDate(Some(ymd(2024, 4, 7)));
    let (due, reason) = determine_next_update_timestamp(&s, now);
    assert_eq!(due.secs, update + WEEK);
    assert_eq!(reason, UpdateReason::SeriesRecentlyOver);
}

#[test]
fn in_production_series_waits_one_week() {
    let update = ymd(2024, 4, 20).to_day_number() * DAY;
    let now = Timestamp { secs: update + DAY };
    for status in [SeriesStatus::InProduction, SeriesStatus::ReturningSeries] {
        let s = series(status, update);
        let (due, reason) = determine_next_update_timestamp(&s, now);
        assert_eq!(due.secs, update + WEEK);
        assert_eq!(reason, UpdateReason::SeriesInProduction);
    }
}

#[test]
fn exactly_four_weeks_counts_as_settled() {
    let update = ymd(2024, 4, 20).to_day_number() * DAY;
    let now = Timestamp { secs: ymd(2024, 4, 29).to_day_number() * DAY };
    let mut s = series(SeriesStatus::Ended, update);
    // exactly 28 days before now: already settled
    s.last_episode_air_date = OptionalDate(Some(ymd(2024, 4, 1)));
    let (due, reason) = determine_next_update_timestamp(&s, now);
    assert_eq!(due.secs, update + 4 * WEEK);
    assert_eq!(reason, UpdateReason::SeriesOverForLong);

    // one day less: still recently over
    let mut s2 = series(SeriesStatus::Ended, update);
    s2.last_episode_air_date = OptionalDate(Some(ymd(2024, 4, 2)));
    let (due2, reason2) = determine_next_update_timestamp(&s2, now);
    assert_eq!(due2.secs, update + WEEK);
    assert_eq!(reason2, UpdateReason::SeriesRecentlyOver);
}

#[test]
fn force_makes_any_entry_eligible() {
    let update = ymd(2024, 4, 20).to_day_number() * DAY;
    let s = series(SeriesStatus::Ended, update);
    // one day after the update: far from due
    let now = Timestamp { secs: update + DAY };
    assert!(!should_update(&s, now, false));
    assert!(should_update(&s, now, true));
}

#[test]
fn scenario_ended_three_weeks_not_due() {
    // scenario: status = Ended, last episode ten weeks before now,
    // force = false, now = last_update + 3 weeks -> not eligible, so no
    // fetch is attempted
    let update = ymd(2024, 4, 20).to_day_number() * DAY;
    let now = Timestamp { secs: update + 3 * WEEK };
    let mut s = series(SeriesStatus::Ended, update);
    let now_day = now.secs / DAY;
    let last_ep = Date {
        year: 2024,
        month: 2,
        day: 1,
    };
    assert!(now_day - last_ep.to_day_number() >= 70);
    s.last_episode_air_date = OptionalDate(Some(last_ep));
    assert!(!should_update(&s, now, false));
}

#[test]
fn update_reason_phrases() {
    assert_eq!(UpdateReason::NextEpisodeRelease.as_str(), "next episode release");
    assert_eq!(UpdateReason::SeriesOverForLong.as_str(), "series is over for long");
    assert_eq!(UpdateReason::SeriesRecentlyOver.as_str(), "series is recently over");
    assert_eq!(UpdateReason::SeriesInProduction.as_str(), "series in production");
}

#[test]
fn mime_type_round_trips_through_validation() {
    let m = MimeType::new(String::from("image/png")).expect("valid");
    assert_eq!(m.as_str(), "image/png");
}
