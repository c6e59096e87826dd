use chrono::NaiveDate;
use uuid::Uuid;

use entropy::db::models::{Initiative, NewEvent, NewEventSection, NewGoal, NewGroup, PgInterval};
use entropy::poacher::local::consumer::{event_record_in_group, section_records_of_event};
use entropy::poacher::local::{
    source_name, LocalEvent, LocalEventSection, LocalGoal, LocalGroup, LocalInitiative, SOURCE,
};

fn at(h: u32) -> chrono::NaiveDateTime {
    NaiveDate::from_ymd_opt(2021, 7, 18).unwrap().and_hms_opt(h, 0, 0).unwrap()
}

fn local_event() -> LocalEvent {
    LocalEvent {
        title: "Rust meetup".to_string(),
        slug: "rust-meetup".to_string(),
        description: "Talks".to_string(),
        group_slug: "rust-chd".to_string(),
        start_time: at(10),
        end_time: at(12),
    }
}

fn section(name: &str) -> LocalEventSection {
    LocalEventSection {
        name: name.to_string(),
        title: format!("Talk {}", name),
        logo: Some("logo.png".to_string()),
        description: "About it".to_string(),
        start_time: at(10),
        end_time: at(11),
    }
}

#[test]
fn local_source_is_local() {
    assert_eq!(SOURCE, "local");
    assert_eq!(source_name(), "local");
}

#[test]
fn group_from_local() {
    let g = NewGroup::from_local(LocalGroup {
        name: "Rust Chandigarh".to_string(),
        slug: "rust-chd".to_string(),
        description: "A group".to_string(),
    });
    assert_eq!(g.name, "Rust Chandigarh");
    assert_eq!(g.slug, "rust-chd");
    assert_eq!(g.description.as_deref(), Some("A group"));
    assert_eq!(g.desc_format, "md");
    assert_eq!(g.source.as_deref(), Some("local"));
    assert_eq!(g.source_link, None);
}

#[test]
fn event_from_local() {
    let e = NewEvent::from_local(local_event());
    assert_eq!(e.title, "Rust meetup");
    assert_eq!(e.slug, "rust-meetup");
    assert_eq!(e.description.as_deref(), Some("Talks"));
    assert_eq!(e.group_id, None);
    assert_eq!(e.desc_format, "md");
    assert!(e.photos.is_empty());
    assert_eq!(e.source.as_deref(), Some("local"));
    assert_eq!(e.source_link, None);
    assert_eq!(e.start_time, at(10));
    assert_eq!(e.end_time, at(12));
}

#[test]
fn event_placed_in_group() {
    let id = Uuid::from_u128(42);
    let e = event_record_in_group(local_event(), id);
    assert_eq!(e.group_id, Some(id));
    assert_eq!(e.slug, "rust-meetup");
    assert_eq!(e.source.as_deref(), Some("local"));
}

#[test]
fn section_from_local() {
    let s = NewEventSection::from_local(section("a"));
    assert_eq!(s.name, "a");
    assert_eq!(s.title, "Talk a");
    assert_eq!(s.logo.as_deref(), Some("logo.png"));
    assert_eq!(s.description.as_deref(), Some("About it"));
    assert_eq!(s.desc_format, "md");
    assert_eq!(s.start_time, at(10));
    assert_eq!(s.end_time, at(11));
    assert_eq!(s.event_id, None);
}

#[test]
fn sections_of_stored_event_keep_order() {
    let id = Uuid::from_u128(7);
    let out = section_records_of_event(vec![section("a"), section("b"), section("c")], id);
    let names: Vec<&str> = out.iter().map(|s| s.name.as_str()).collect();
    assert_eq!(names, vec!["a", "b", "c"]);
    assert!(out.iter().all(|s| s.event_id == Some(id)));
    assert!(section_records_of_event(vec![], id).is_empty());
}

#[test]
fn initiative_from_local() {
    let i = Initiative::from_local(LocalInitiative {
        title: "Open source".to_string(),
        slug: "oss".to_string(),
        description: "Contribute".to_string(),
    });
    assert_eq!(i.title, "Open source");
    assert_eq!(i.slug, "oss");
    assert_eq!(i.source.as_deref(), Some("local"));
    assert_eq!(i.description.as_deref(), Some("Contribute"));
    assert_eq!(i.desc_format, "md");
}

#[test]
fn goal_interval_in_microseconds() {
    let g = NewGoal::from_local(LocalGoal {
        title: "Weekly post".to_string(),
        slug: "weekly".to_string(),
        description: "Write".to_string(),
        target: 4,
        interval_in_minutes: 90,
    });
    assert_eq!(g.target, 4);
    assert_eq!(g.initiative_slug, None);
    assert_eq!(g.desc_format, "md");
    assert_eq!(
        g.iteration_interval,
        Some(PgInterval { microseconds: 5_400_000_000, days: 0, months: 0 })
    );
}

#[test]
fn goal_interval_largest() {
    let g = NewGoal::from_local(LocalGoal {
        title: String::new(),
        slug: String::new(),
        description: String::new(),
        target: 0,
        interval_in_minutes: u32::MAX,
    });
    assert_eq!(
        g.iteration_interval.unwrap().microseconds,
        (u32::MAX as i64) * 60_000_000
    );
}

#[test]
fn interval_from_microseconds() {
    assert_eq!(
        PgInterval::from_microseconds(-5),
        PgInterval { microseconds: -5, days: 0, months: 0 }
    );
}

#[test]
fn poachers_stamp_distinct_sources() {
    let local = NewGroup::from_local(LocalGroup {
        name: "Rust Chandigarh".to_string(),
        slug: "rust-chd".to_string(),
        description: "Rustaceans".to_string(),
    });
    let meetup = NewGroup::from_meetup(entropy::poacher::meetup::MeetupGroup {
        id: "1".to_string(),
        slug: "rust-chd".to_string(),
        name: "Rust Chandigarh".to_string(),
        link: "https://www.meetup.com/rust-chd/".to_string(),
        description: "Rustaceans".to_string(),
        city: "Chandigarh".to_string(),
        state: "CH".to_string(),
        country: "in".to_string(),
        is_private: false,
        photo: None,
    });
    assert_eq!(local.source.as_deref(), Some("local"));
    assert_eq!(meetup.source.as_deref(), Some("meetup.com"));
    assert_ne!(local.source, meetup.source);
}
