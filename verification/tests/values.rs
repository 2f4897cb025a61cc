use tvtrack::dates::{date_from_ymd, Date, OptionalDate, Timestamp};
use tvtrack::episode::{parse_episode_type, EpisodeDetails, EpisodeId, EpisodeType};
use tvtrack::mime::{MimeType, MimeTypeError};
use tvtrack::parse::{parse_i32, parse_title_line};
use tvtrack::search::{select_best_candidate, SeriesFound};
use tvtrack::series::{parse_series_status, SeriesId, SeriesStatus};
use tvtrack::text::i64_to_string;

fn ymd(y: i32, m: u8, d: u8) -> Date {
    date_from_ymd(y, m, d).expect("valid date")
}

#[test]
fn decimal_rendering_is_exact() {
    assert_eq!(i64_to_string(0), "0");
    assert_eq!(i64_to_string(7), "7");
    assert_eq!(i64_to_string(120), "120");
    assert_eq!(i64_to_string(-45), "-45");
    assert_eq!(i64_to_string(i64::MIN), "-9223372036854775808");
}

#[test]
fn episode_identification_is_exact() {
    let ep = EpisodeDetails {
        id: EpisodeId(62085),
        season_number: 1,
        episode_number: 5,
        name: String::from("Gray Matter"),
        episode_type: EpisodeType::Standard,
        air_date: OptionalDate(Some(ymd(2008, 2, 24))),
    };
    assert_eq!(ep.identify(), "S01E05 Gray Matter on 2008-02-24");

    let finale = EpisodeDetails {
        episode_type: EpisodeType::Finale,
        air_date: OptionalDate(None),
        ..ep
    };
    assert_eq!(finale.identify(), "S01E05 Gray Matter on <unknown> (Finale)");
}

#[test]
fn day_numbers_count_from_the_epoch() {
    assert_eq!(ymd(1970, 1, 1).to_day_number(), 0);
    assert_eq!(ymd(1969, 12, 31).to_day_number(), -1);
    assert_eq!(ymd(2024, 5, 1).to_day_number(), 19844);
    assert_eq!(ymd(2024, 5, 1).end_of_day().secs, 1714607999);
    assert_eq!(Timestamp { secs: 1714607999 }.day(), 19844);
    assert_eq!(Timestamp { secs: -1 }.day(), -1);
}

#[test]
fn invalid_dates_are_rejected() {
    assert!(date_from_ymd(2023, 2, 29).is_none());
    assert!(date_from_ymd(2024, 2, 29).is_some());
    assert!(date_from_ymd(1900, 2, 29).is_none());
    assert!(date_from_ymd(2000, 2, 29).is_some());
    assert!(date_from_ymd(2024, 0, 1).is_none());
    assert!(date_from_ymd(2024, 13, 1).is_none());
    assert!(date_from_ymd(2024, 4, 31).is_none());
    assert!(date_from_ymd(0, 1, 1).is_none());
    assert!(date_from_ymd(10000, 1, 1).is_none());
}

#[test]
fn status_strings_round_trip() {
    let all = [
        (SeriesStatus::InProduction, "In Production"),
        (SeriesStatus::ReturningSeries, "Returning Series"),
        (SeriesStatus::Ended, "Ended"),
        (SeriesStatus::Canceled, "Canceled"),
    ];
    for (status, text) in all {
        assert_eq!(status.display_str(), text);
        assert_eq!(parse_series_status(text), Some(status));
    }
    assert_eq!(parse_series_status("Nonsense"), None);
    assert_eq!(parse_series_status("ended"), None);
}

#[test]
fn episode_type_strings_round_trip() {
    assert_eq!(EpisodeType::Standard.display_str(), "Standard");
    assert_eq!(EpisodeType::Finale.display_str(), "Finale");
    assert_eq!(parse_episode_type("Standard"), Some(EpisodeType::Standard));
    assert_eq!(parse_episode_type("Finale"), Some(EpisodeType::Finale));
    assert_eq!(parse_episode_type("finale"), None);
}

#[test]
fn mime_types_come_from_extensions() {
    let jpg = MimeType::identify_from_ext("/abc/poster.jpg").expect("known");
    assert_eq!(jpg.as_str(), "image/jpeg");
    let jpeg = MimeType::identify_from_ext("poster.jpeg").expect("known");
    assert_eq!(jpeg.as_str(), "image/jpeg");
    let png = MimeType::identify_from_ext("poster.png").expect("known");
    assert_eq!(png.as_str(), "image/png");
    assert_eq!(
        MimeType::identify_from_ext("poster.bmp"),
        Err(MimeTypeError::UnknownExtension)
    );
    assert_eq!(
        MimeType::identify_from_ext("poster"),
        Err(MimeTypeError::MissingExtension)
    );
    assert_eq!(
        MimeType::identify_from_ext("/dir.d/poster"),
        Err(MimeTypeError::MissingExtension)
    );
}

#[test]
fn mime_validation_rejects_malformed_values() {
    assert!(MimeType::new(String::from("text/plain")).is_ok());
    assert_eq!(
        MimeType::new(String::from("not a mime")),
        Err(MimeTypeError::Invalid)
    );
    assert_eq!(MimeType::new(String::new()), Err(MimeTypeError::Invalid));
}

#[test]
fn number_parsing_follows_the_standard_grammar() {
    assert_eq!(parse_i32("2024"), Some(2024));
    assert_eq!(parse_i32("+17"), Some(17));
    assert_eq!(parse_i32("-45"), Some(-45));
    assert_eq!(parse_i32("0012"), Some(12));
    assert_eq!(parse_i32(""), None);
    assert_eq!(parse_i32("-"), None);
    assert_eq!(parse_i32("12a"), None);
    assert_eq!(parse_i32("2147483647"), Some(i32::MAX));
    assert_eq!(parse_i32("2147483648"), None);
    assert_eq!(parse_i32("-2147483648"), Some(i32::MIN));
    assert_eq!(parse_i32("-2147483649"), None);
    assert_eq!(parse_i32("99999999999999999999"), None);
}

#[test]
fn title_lines_split_off_a_release_year() {
    assert_eq!(parse_title_line("Some Show (2024)"), ("Some Show", Some(2024)));
    assert_eq!(parse_title_line("  Some Show (2024)  "), ("Some Show", Some(2024)));
    assert_eq!(parse_title_line("Some Show"), ("Some Show", None));
    assert_eq!(parse_title_line("Some Show (soon)"), ("Some Show (soon)", None));
    assert_eq!(parse_title_line("Some Show 2024"), ("Some Show 2024", None));
    assert_eq!(parse_title_line(""), ("", None));
}

fn found(id: i32, name: &str, air: Option<Date>) -> SeriesFound {
    SeriesFound {
        id: SeriesId(id),
        name: String::from(name),
        overview: String::new(),
        first_air_date: OptionalDate(air),
    }
}

#[test]
fn candidate_choice_prefers_exact_and_recent() {
    // an exact name match beats a more recent inexact one
    let candidates = vec![
        found(1, "The Show: Reloaded", Some(ymd(2024, 1, 1))),
        found(2, "The Show", Some(ymd(2001, 1, 1))),
    ];
    assert_eq!(select_best_candidate(&candidates, "The Show"), Some(1));

    // without an exact match, the most recently released wins
    let candidates2 = vec![
        found(1, "A", Some(ymd(2001, 1, 1))),
        found(2, "B", Some(ymd(2019, 1, 1))),
        found(3, "C", None),
    ];
    assert_eq!(select_best_candidate(&candidates2, "D"), Some(1usize));

    // of equally dated candidates the one listed last wins
    let candidates3 = vec![
        found(1, "A", Some(ymd(2019, 1, 1))),
        found(2, "B", Some(ymd(2019, 1, 1))),
    ];
    assert_eq!(select_best_candidate(&candidates3, "E"), Some(1usize));

    let empty: Vec<SeriesFound> = vec![];
    assert_eq!(select_best_candidate(&empty, "X"), None);
}
