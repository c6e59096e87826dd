use chrono::NaiveDate;
use url::Url;
use uuid::Uuid;

use entropy::db::models::{NewEvent, NewGroup};
use entropy::poacher::meetup::consumer::{
    event_is_blacklisted, event_record_in_group, group_record_unless_blacklisted,
};
use entropy::poacher::meetup::util::{get_gql_headers, make_meetup_image_url};
use entropy::poacher::meetup::{source_name, MeetupEvent, MeetupGroup, SOURCE};

fn group(slug: &str) -> MeetupGroup {
    MeetupGroup {
        id: "123".to_string(),
        slug: slug.to_string(),
        name: "Rust Chandigarh".to_string(),
        link: "https://www.meetup.com/rust-chd/".to_string(),
        description: "Rustaceans".to_string(),
        city: "Chandigarh".to_string(),
        state: "CH".to_string(),
        country: "in".to_string(),
        is_private: false,
        photo: None,
    }
}

fn event(group_slug: &str) -> MeetupEvent {
    let day = NaiveDate::from_ymd_opt(2021, 7, 18).unwrap();
    MeetupEvent {
        id: "e1".to_string(),
        slug: "e1".to_string(),
        group_slug: group_slug.to_string(),
        title: "Hack night".to_string(),
        description: None,
        start_time: day.and_hms_opt(18, 0, 0).unwrap(),
        end_time: day.and_hms_opt(21, 0, 0).unwrap(),
        is_online: true,
        charges: serde_json::Number::from_f64(2.5),
        currency: Some("INR".to_string()),
        link: "https://www.meetup.com/rust-chd/events/e1/".to_string(),
        venue: None,
    }
}

#[test]
fn meetup_source() {
    assert_eq!(SOURCE, "meetup.com");
    assert_eq!(source_name(), "meetup.com");
}

#[test]
fn gql_headers() {
    let h = get_gql_headers();
    let h: Vec<(&str, &str)> = h.iter().map(|(k, v)| (k.as_str(), v.as_str())).collect();
    assert_eq!(
        h,
        vec![
            ("Content-Type", "application/json"),
            ("apollographql-client-name", "nextjs-web"),
            ("X-Meetup-View-Id", "06d05ba6-629d-4763-87a0-6879ac4620c4"),
            ("Origin", "https://www.meetup.com"),
        ]
    );
}

#[test]
fn image_url() {
    let base = Url::parse("https://secure.meetupstatic.com/photos/event/").unwrap();
    let url = make_meetup_image_url(&base, "abc.jpeg");
    assert_eq!(
        url.as_str(),
        "https://secure.meetupstatic.com/abc.jpeg?url=https%253A%252F%252Fsecure.meetupstatic.com%252Fphotos%252Fevent%252F&w=1920&q=100"
    );
    // the base URL itself is left as it was
    assert_eq!(base.as_str(), "https://secure.meetupstatic.com/photos/event/");
}

#[test]
fn image_url_matches_url_crate() {
    let base = Url::parse("https://img.example.com/a/b?x=1").unwrap();
    let mut expected = base.clone();
    expected.set_path("id 1");
    expected
        .query_pairs_mut()
        .append_pair("url", &urlencoding::encode(base.as_str()))
        .append_pair("w", "1920")
        .append_pair("q", "100");
    assert_eq!(make_meetup_image_url(&base, "id 1").as_str(), expected.as_str());
}

#[test]
fn group_record_from_meetup() {
    let g = NewGroup::from_meetup(group("rust-chd"));
    assert_eq!(g.name, "Rust Chandigarh");
    assert_eq!(g.slug, "rust-chd");
    assert_eq!(g.description.as_deref(), Some("Rustaceans"));
    assert_eq!(g.desc_format, "text");
    assert_eq!(g.source.as_deref(), Some("meetup.com"));
    assert_eq!(g.source_link.as_deref(), Some("https://www.meetup.com/rust-chd/"));
}

#[test]
fn event_record_from_meetup() {
    let e = NewEvent::from_meetup(event("rust-chd"));
    assert_eq!(e.title, "Hack night");
    assert_eq!(e.slug, "e1");
    assert_eq!(e.description, None);
    assert_eq!(e.group_id, None);
    assert_eq!(e.desc_format, "text");
    assert!(e.photos.is_empty());
    assert_eq!(e.source.as_deref(), Some("meetup.com"));
    assert_eq!(e.source_link.as_deref(), Some("https://www.meetup.com/rust-chd/events/e1/"));
    let placed = event_record_in_group(event("rust-chd"), Uuid::from_u128(9));
    assert_eq!(placed.group_id, Some(Uuid::from_u128(9)));
    assert_eq!(placed.start_time, event("x").start_time);
}

#[test]
fn blacklisted_group_is_not_stored() {
    let blacklist = vec!["spam".to_string(), "rust-chd".to_string()];
    assert!(group_record_unless_blacklisted(group("rust-chd"), &blacklist).is_none());
    let kept = group_record_unless_blacklisted(group("go-chd"), &blacklist).unwrap();
    assert_eq!(kept.slug, "go-chd");
    assert!(group_record_unless_blacklisted(group("x"), &vec![]).is_some());
}

#[test]
fn event_of_blacklisted_group_is_left_out() {
    let blacklist = vec!["spam".to_string()];
    assert!(event_is_blacklisted(&event("spam"), &blacklist));
    assert!(!event_is_blacklisted(&event("rust-chd"), &blacklist));
    assert!(!event_is_blacklisted(&event("spa"), &blacklist));
}
