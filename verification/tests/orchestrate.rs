use tvtrack::dates::{date_from_ymd, Date, OptionalDate, Timestamp};
use tvtrack::orchestrate::update_one_series;
use tvtrack::series::{SeriesDetails, SeriesId, SeriesStatus};
use tvtrack::store::{PosterId, Series};

fn ymd(y: i32, m: u8, d: u8) -> Date {
    date_from_ymd(y, m, d).expect("valid date")
}

fn details(status: SeriesStatus, episodes: i32) -> SeriesDetails {
    SeriesDetails {
        id: SeriesId(7),
        name: String::from("Some Show"),
        first_air_date: OptionalDate(Some(ymd(2019, 3, 14))),
        number_of_seasons: 2,
        number_of_episodes: episodes,
        last_episode_to_air: None,
        next_episode_to_air: None,
        status,
        in_production: true,
        poster_path: String::from("/abc.jpg"),
    }
}

fn series() -> Series {
    Series {
        tmdb_id: SeriesId(7),
        poster_id: PosterId(1),
        title: String::from("Some Show"),
        first_air_date: OptionalDate(Some(ymd(2019, 3, 14))),
        status: SeriesStatus::ReturningSeries,
        in_production: true,
        last_episode_air_date: OptionalDate(None),
        next_episode_air_date: OptionalDate(None),
        details: details(SeriesStatus::ReturningSeries, 16),
        update_timestamp: Timestamp { secs: 1000 },
    }
}

#[test]
fn a_changed_snapshot_updates_the_entry_and_reports() {
    let mut s = series();
    let mut fetched = details(SeriesStatus::Ended, 17);
    fetched.in_production = false;
    fetched.next_episode_to_air = None;
    let now = Timestamp { secs: 5000 };

    let changes = update_one_series(&mut s, fetched, now).expect("something changed");
    assert_eq!(
        changes.status_change,
        Some((SeriesStatus::ReturningSeries, SeriesStatus::Ended))
    );
    assert_eq!(changes.in_production_change, Some((true, false)));
    assert_eq!(changes.episode_count_change, Some((16, 17)));

    // the entry now carries the new observation
    assert_eq!(s.status, SeriesStatus::Ended);
    assert!(!s.in_production);
    assert_eq!(s.details.number_of_episodes, 17);
    assert_eq!(s.update_timestamp, Timestamp { secs: 5000 });
    // identity, title and poster reference stay
    assert_eq!(s.tmdb_id, SeriesId(7));
    assert_eq!(s.poster_id, PosterId(1));
    assert_eq!(s.title, "Some Show");
}

#[test]
fn an_unchanged_snapshot_leaves_the_entry_as_it_was() {
    let mut s = series();
    let fetched = details(SeriesStatus::ReturningSeries, 16);
    let now = Timestamp { secs: 5000 };

    let result = update_one_series(&mut s, fetched, now);
    assert!(result.is_none());
    // the in-memory entry keeps its old update time
    assert_eq!(s.update_timestamp, Timestamp { secs: 1000 });
    assert_eq!(s.status, SeriesStatus::ReturningSeries);
}
