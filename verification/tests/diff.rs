use tvtrack::changes::collect_series_details_changes;
use tvtrack::dates::{date_from_ymd, Date, OptionalDate};
use tvtrack::episode::{EpisodeDetails, EpisodeId, EpisodeType};
use tvtrack::series::{SeriesDetails, SeriesId, SeriesStatus};

fn ymd(y: i32, m: u8, d: u8) -> Date {
    date_from_ymd(y, m, d).expect("valid date")
}

fn episode(id: i32, name: &str, air: Option<Date>) -> EpisodeDetails {
    EpisodeDetails {
        id: EpisodeId(id),
        season_number: 1,
        episode_number: 5,
        name: String::from(name),
        episode_type: EpisodeType::Standard,
        air_date: OptionalDate(air),
    }
}

fn snapshot() -> SeriesDetails {
    SeriesDetails {
        id: SeriesId(1396),
        name: String::from("Some Show"),
        first_air_date: OptionalDate(Some(ymd(2008, 1, 20))),
        number_of_seasons: 5,
        number_of_episodes: 62,
        last_episode_to_air: Some(episode(100, "One", Some(ymd(2013, 9, 29)))),
        next_episode_to_air: None,
        status: SeriesStatus::ReturningSeries,
        in_production: true,
        poster_path: String::from("/abc.jpg"),
    }
}

#[test]
fn diff_of_identical_snapshots_is_empty() {
    let a = snapshot();
    let b = snapshot();
    let c = collect_series_details_changes(&a, &b);
    assert!(!c.has_any_changes());
    assert_eq!(c.summary(), "no changes");
}

#[test]
fn diff_is_symmetric_with_swapped_pairs() {
    let a = snapshot();
    let mut b = snapshot();
    b.status = SeriesStatus::Ended;
    b.in_production = false;
    b.number_of_episodes = 63;

    let ab = collect_series_details_changes(&a, &b);
    let ba = collect_series_details_changes(&b, &a);

    assert_eq!(
        ab.status_change,
        Some((SeriesStatus::ReturningSeries, SeriesStatus::Ended))
    );
    assert_eq!(
        ba.status_change,
        Some((SeriesStatus::Ended, SeriesStatus::ReturningSeries))
    );
    assert_eq!(ab.in_production_change, Some((true, false)));
    assert_eq!(ba.in_production_change, Some((false, true)));
    assert_eq!(ab.episode_count_change, Some((62, 63)));
    assert_eq!(ba.episode_count_change, Some((63, 62)));
    assert!(ab.last_episode_change.is_none() && ba.last_episode_change.is_none());
    assert!(ab.next_episode_change.is_none() && ba.next_episode_change.is_none());
}

#[test]
fn scenario_status_change_alone() {
    // scenario: old status = ReturningSeries, new status = Ended, all
    // else equal -> only the status pair is present
    let a = snapshot();
    let mut b = snapshot();
    b.status = SeriesStatus::Ended;
    let c = collect_series_details_changes(&a, &b);
    assert!(c.has_any_changes());
    assert_eq!(
        c.status_change,
        Some((SeriesStatus::ReturningSeries, SeriesStatus::Ended))
    );
    assert!(c.in_production_change.is_none());
    assert!(c.last_episode_change.is_none());
    assert!(c.next_episode_change.is_none());
    assert!(c.episode_count_change.is_none());
}

#[test]
fn episodes_compare_by_air_date_only() {
    // a renumbered episode with the same air date is not a change
    let a = snapshot();
    let mut b = snapshot();
    b.last_episode_to_air = Some(episode(999, "Renamed", Some(ymd(2013, 9, 29))));
    let c = collect_series_details_changes(&a, &b);
    assert!(!c.has_any_changes());

    // a moved air date is a change
    let mut d = snapshot();
    d.last_episode_to_air = Some(episode(100, "One", Some(ymd(2013, 10, 6))));
    let c2 = collect_series_details_changes(&a, &d);
    assert!(c2.has_any_changes());
    assert!(c2.last_episode_change.is_some());
}

#[test]
fn summary_lists_one_line_per_changed_field() {
    let a = snapshot();
    let mut b = snapshot();
    b.in_production = false;
    b.number_of_episodes = 63;
    let c = collect_series_details_changes(&a, &b);
    assert_eq!(
        c.summary(),
        "\n - In production: true => false\n - Episode count: 62 => 63\n"
    );
}

#[test]
fn summary_renders_episode_transitions() {
    let a = snapshot();
    let mut b = snapshot();
    b.next_episode_to_air = Some(episode(101, "Two", Some(ymd(2013, 10, 6))));
    let c = collect_series_details_changes(&a, &b);
    assert_eq!(
        c.summary(),
        "\n - Next episode: unknown => S01E05 Two on 2013-10-06\n"
    );
}
