use tvtrack::changes::SeriesDetailsChanges;
use tvtrack::dates::{date_from_ymd, Date, OptionalDate, Timestamp};
use tvtrack::mime::MimeType;
use tvtrack::notify::{
    compose_notifications, group_entries_by_subscriber, make_entry, make_series_url, SeriesEntry,
};
use tvtrack::series::{SeriesDetails, SeriesId, SeriesStatus};
use tvtrack::store::{Poster, PosterId, Series, User};

fn ymd(y: i32, m: u8, d: u8) -> Date {
    date_from_ymd(y, m, d).expect("valid date")
}

fn series(id: i32, title: &str) -> Series {
    let details = SeriesDetails {
        id: SeriesId(id),
        name: String::from(title),
        first_air_date: OptionalDate(Some(ymd(2020, 6, 2))),
        number_of_seasons: 1,
        number_of_episodes: 8,
        last_episode_to_air: None,
        next_episode_to_air: None,
        status: SeriesStatus::ReturningSeries,
        in_production: true,
        poster_path: format!("/{id}.jpg"),
    };
    Series {
        tmdb_id: SeriesId(id),
        poster_id: PosterId(id as i64),
        title: String::from(title),
        first_air_date: OptionalDate(Some(ymd(2020, 6, 2))),
        status: SeriesStatus::ReturningSeries,
        in_production: true,
        last_episode_air_date: OptionalDate(None),
        next_episode_air_date: OptionalDate(None),
        details,
        update_timestamp: Timestamp { secs: 0 },
    }
}

fn entry(id: i32, title: &str) -> SeriesEntry {
    let s = series(id, title);
    let mut changes = SeriesDetailsChanges::new(SeriesId(id));
    changes.status_change = Some((SeriesStatus::ReturningSeries, SeriesStatus::Ended));
    let poster = Poster {
        id: PosterId(id as i64),
        img_data: vec![1, 2, 3, id as u8],
        mime_type: MimeType::new(String::from("image/jpeg")).expect("valid"),
        source_url: None,
    };
    make_entry(s, changes, poster)
}

fn user(id: i64, name: &str) -> User {
    User {
        id,
        name: String::from(name),
        email: format!("{name}@example.com"),
    }
}

#[test]
fn scenario_two_subscribers_get_scoped_messages() {
    // scenario: subscriber A follows both entries, subscriber B only the
    // first -> exactly two messages, A's with two entries, B's with one
    let entries = vec![entry(1, "First Show"), entry(2, "Second Show")];
    let subscribers = vec![
        vec![user(10, "alice"), user(20, "bob")], // entry 0: A and B
        vec![user(10, "alice")],                  // entry 1: A only
    ];
    let groups = group_entries_by_subscriber(&subscribers);
    assert_eq!(groups.len(), 2);
    assert_eq!(groups[0].0.id, 10);
    assert_eq!(groups[0].1, vec![0, 1]);
    assert_eq!(groups[1].0.id, 20);
    assert_eq!(groups[1].1, vec![0]);

    let today = ymd(2024, 5, 2);
    let messages = compose_notifications(&entries, &groups, today);
    assert_eq!(messages.len(), 2);

    let a = &messages[0];
    assert_eq!(a.to_address, "alice@example.com");
    assert_eq!(a.subject, "TVTrack updates 2024-05-02");
    assert_eq!(a.attachments.len(), 2);
    assert!(a.html_body.contains("First Show"));
    assert!(a.html_body.contains("Second Show"));

    let b = &messages[1];
    assert_eq!(b.to_address, "bob@example.com");
    assert_eq!(b.attachments.len(), 1);
    assert!(b.html_body.contains("First Show"));
    // the body renders only that subscriber's own subset
    assert!(!b.html_body.contains("Second Show"));
}

#[test]
fn entry_without_subscribers_is_dropped() {
    // a subscriber with zero changed, subscribed entries gets no message
    let subscribers = vec![
        vec![],                    // entry 0: nobody
        vec![user(30, "carol")],   // entry 1: carol
    ];
    let groups = group_entries_by_subscriber(&subscribers);
    assert_eq!(groups.len(), 1);
    assert_eq!(groups[0].0.id, 30);
    assert_eq!(groups[0].1, vec![1]);
}

#[test]
fn no_changes_mean_no_messages() {
    let subscribers: Vec<Vec<User>> = vec![];
    let groups = group_entries_by_subscriber(&subscribers);
    assert!(groups.is_empty());
    let entries: Vec<SeriesEntry> = vec![];
    let messages = compose_notifications(&entries, &groups, ymd(2024, 5, 2));
    assert!(messages.is_empty());
}

#[test]
fn attachment_identifiers_follow_series_and_extension() {
    let e = entry(42, "Some Show");
    assert_eq!(e.poster_attachment_id(), "42.jpg");
    assert_eq!(e.poster_attachment_uri(), "cid:42.jpg");
    let a = e.create_poster_attachment();
    assert_eq!(a.content_id, "42.jpg");
    assert_eq!(a.data, vec![1, 2, 3, 42]);
    assert_eq!(a.mime_type.as_str(), "image/jpeg");
}

#[test]
fn series_url_names_the_public_page() {
    assert_eq!(
        make_series_url(SeriesId(1396)),
        "https://www.themoviedb.org/tv/1396"
    );
}

#[test]
fn html_marks_changed_fields() {
    let e = entry(1, "First Show");
    let entries = vec![e];
    let html = tvtrack::html::make_email_html(&entries);
    assert!(html.contains("TVTrack updates"));
    assert!(html.contains("First Show (2020)"));
    assert!(html.contains("src=\"cid:1.jpg\""));
    // the changed status is wrapped in the marker span
    assert!(html.contains(
        "<span style=\"color: #b6004c;\">Returning Series &#8658; Ended</span>"
    ));
    // the unchanged in-production state is not
    assert!(html.contains(">In production</li>"));
}
