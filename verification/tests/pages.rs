use chrono::NaiveDate;
use uuid::Uuid;

use entropy::db::models::Event;
use entropy::web::routes::events::CtxEvent;

#[test]
fn event_listing_formats_dates() {
    let day = NaiveDate::from_ymd_opt(2021, 7, 18).unwrap();
    let event = Event {
        id: Uuid::from_u128(1),
        title: "Hack night".to_string(),
        slug: "hack-night".to_string(),
        description: Some("Bring a laptop".to_string()),
        desc_format: "md".to_string(),
        group_id: Uuid::from_u128(2),
        venue_id: None,
        photos: vec![],
        source: None,
        source_link: None,
        start_time: day.and_hms_opt(18, 0, 0).unwrap(),
        end_time: day.and_hms_opt(21, 30, 0).unwrap(),
        created_at: day.and_hms_opt(0, 0, 0).unwrap(),
        updated_at: day.and_hms_opt(0, 0, 0).unwrap(),
    };
    let c = CtxEvent::from_event(event);
    assert_eq!(c.title, "Hack night");
    assert_eq!(c.slug, "hack-night");
    assert_eq!(c.description.as_deref(), Some("Bring a laptop"));
    assert_eq!(c.start_date, "Sunday, July 18");
    assert_eq!(c.start_time, " 6:00pm");
    assert_eq!(c.end_time, " 9:30pm");
}

#[test]
fn event_listing_morning_and_single_digit_day() {
    let day = NaiveDate::from_ymd_opt(2022, 1, 3).unwrap();
    let t = day.and_hms_opt(10, 5, 0).unwrap();
    let event = Event {
        id: Uuid::from_u128(1),
        title: String::new(),
        slug: String::new(),
        description: None,
        desc_format: String::new(),
        group_id: Uuid::from_u128(2),
        venue_id: None,
        photos: vec![],
        source: None,
        source_link: None,
        start_time: t,
        end_time: t,
        created_at: t,
        updated_at: t,
    };
    let c = CtxEvent::from_event(event);
    assert_eq!(c.start_date, "Monday, January  3");
    assert_eq!(c.start_time, "10:05am");
}

#[test]
fn markdown_with_extensions() {
    assert_eq!(entropy::web::utils::render_md("# Hi"), "<h1>Hi</h1>\n");
    assert_eq!(entropy::web::utils::render_md("~~gone~~"), "<p><del>gone</del></p>\n");
}

#[test]
fn rfc_intro_is_plain_commonmark() {
    assert_eq!(entropy::web::routes::rfcs::render_md("# Hi"), "<h1>Hi</h1>\n");
    assert_eq!(entropy::web::routes::rfcs::render_md("~~gone~~"), "<p>~~gone~~</p>\n");
}
