use chrono::NaiveDate;
use url::Url;

use entropy::poacher::meetup::search::{
    checked_event_search_messages, event_node_messages, event_search_messages,
    group_node_message, group_search_messages, node_fails, photo_url, photo_url_buildable,
    checked_group_search_outcome, checked_event_search_outcome, group_search_outcome,
    event_search_outcome, EventFields, EventNode,
    EventSearchResponse, EventSearchResults, GroupNode, GroupSearchResponse, GroupSearchResults,
};
use entropy::poacher::meetup::{MeetupGroup, MeetupResult};
use entropy::poacher::{PoacherError, PoacherMessage, PoacherResult, PoacherWarning};

const PHOTO_URL: &str = "https://secure.meetupstatic.com/abc.jpeg?url=https%253A%252F%252Fsecure.meetupstatic.com%252Fphotos%252Fevent%252F&w=1920&q=100";

fn json_error() -> serde_json::Error {
    serde_json::from_str::<bool>("nope").unwrap_err()
}

fn base_url() -> Url {
    Url::parse("https://secure.meetupstatic.com/photos/event/").unwrap()
}

fn group(slug: &str) -> MeetupGroup {
    MeetupGroup {
        id: "123".to_string(),
        slug: slug.to_string(),
        name: "Rust Chandigarh".to_string(),
        link: "https://www.meetup.com/rust-chd/".to_string(),
        description: "Rustaceans".to_string(),
        city: "Chandigarh".to_string(),
        state: "CH".to_string(),
        country: "in".to_string(),
        is_private: false,
        photo: None,
    }
}

fn group_node(slug: &str) -> GroupNode {
    GroupNode {
        photo_base_url: Ok(base_url()),
        photo_id: Some("abc.jpeg".to_string()),
        group: Ok(group(slug)),
    }
}

fn fields() -> EventFields {
    EventFields {
        id: "e1".to_string(),
        slug: "e1".to_string(),
        group_slug: "rust-chd".to_string(),
        title: "Hack night".to_string(),
        description: Some("Bring a laptop".to_string()),
        charges: serde_json::Number::from_f64(2.5),
        link: "https://www.meetup.com/rust-chd/events/e1/".to_string(),
    }
}

fn event_node(start: &str) -> EventNode {
    EventNode {
        photo_base_url: Ok(base_url()),
        photo_id: Some("abc.jpeg".to_string()),
        date_time: Ok(start.to_string()),
        end_time: Ok("2021-07-18T21:00+05:30".to_string()),
        event_type: Some("online".to_string()),
        group: Ok(group("rust-chd")),
        event: Ok(fields()),
    }
}

fn unknown_error(m: &PoacherMessage) -> &str {
    match m {
        PoacherMessage::Error(PoacherError::UnknownResponseError(s)) => s,
        other => panic!("not an unknown-response error: {:?}", other),
    }
}

fn json_context(m: &PoacherMessage) -> Option<&str> {
    match m {
        PoacherMessage::Error(PoacherError::JsonParseError(_, context)) => context.as_deref(),
        other => panic!("not a JSON error: {:?}", other),
    }
}

fn found_group(m: &PoacherMessage) -> &MeetupGroup {
    match m {
        PoacherMessage::ResultItem(PoacherResult::Meetup(MeetupResult::Group(g))) => g,
        other => panic!("not a group: {:?}", other),
    }
}

fn warning(m: &PoacherMessage) -> &str {
    match m {
        PoacherMessage::Warning(PoacherWarning::FailedPresumption(s)) => s,
        other => panic!("not a warning: {:?}", other),
    }
}

#[test]
fn photo_url_of_group_photo() {
    let id = "abc.jpeg".to_string();
    assert!(photo_url_buildable(&base_url(), &id));
    assert_eq!(photo_url(&base_url(), &id), PHOTO_URL);
}

#[test]
fn long_photo_url_is_built() {
    let id = "a".repeat(0x20_0000);
    assert!(photo_url_buildable(&base_url(), &id));
    let url = photo_url(&base_url(), &id);
    assert!(url.starts_with("https://secure.meetupstatic.com/aaaa"));
    assert!(url.ends_with("&w=1920&q=100"));
}

#[test]
fn group_search_without_results() {
    let msgs = group_search_messages(GroupSearchResponse { results: None });
    assert_eq!(msgs.len(), 1);
    assert_eq!(unknown_error(&msgs[0]), "Group search response has unexpected shape");
}

#[test]
fn group_search_unreadable_page_info() {
    let msgs = group_search_messages(GroupSearchResponse {
        results: Some(GroupSearchResults { has_next_page: Err(json_error()), edges: Some(vec![]) }),
    });
    assert_eq!(msgs.len(), 1);
    assert_eq!(json_context(&msgs[0]), None);
}

#[test]
fn group_search_next_page_without_edges() {
    let msgs = group_search_messages(GroupSearchResponse {
        results: Some(GroupSearchResults { has_next_page: Ok(true), edges: None }),
    });
    assert_eq!(msgs.len(), 2);
    assert_eq!(warning(&msgs[0]), "Groups search has next page to fetch");
    assert_eq!(unknown_error(&msgs[1]), "Group search response has no edges");
}

#[test]
fn group_search_reports_each_result() {
    let no_photo = GroupNode {
        photo_base_url: Err(json_error()),
        photo_id: Some("abc.jpeg".to_string()),
        group: Ok(group("a")),
    };
    let no_id = GroupNode { photo_base_url: Ok(base_url()), photo_id: None, group: Ok(group("b")) };
    let bad_group =
        GroupNode { photo_base_url: Ok(base_url()), photo_id: Some("x".to_string()), group: Err(json_error()) };
    let msgs = group_search_messages(GroupSearchResponse {
        results: Some(GroupSearchResults {
            has_next_page: Ok(false),
            edges: Some(vec![no_photo, no_id, bad_group, group_node("rust-chd")]),
        }),
    });
    assert_eq!(msgs.len(), 4);
    assert_eq!(json_context(&msgs[0]), Some("Parsing group photo base URL"));
    assert_eq!(unknown_error(&msgs[1]), "Group photo ID not found");
    assert_eq!(json_context(&msgs[2]), Some("Parsing Group node"));
    let g = found_group(&msgs[3]);
    assert_eq!(g.slug, "rust-chd");
    assert_eq!(g.name, "Rust Chandigarh");
    assert_eq!(g.photo.as_deref(), Some(PHOTO_URL));
}

#[test]
fn group_node_with_long_photo_id() {
    let node = GroupNode {
        photo_base_url: Ok(base_url()),
        photo_id: Some("a".repeat(0x20_0000)),
        group: Ok(group("a")),
    };
    let m = group_node_message(node);
    assert!(found_group(&m).photo.as_deref().unwrap().ends_with("&w=1920&q=100"));
}

#[test]
fn event_node_read() {
    let (g, e) = event_node_messages(event_node("2021-07-18T18:30+05:30")).unwrap();
    assert_eq!(found_group(&g).photo.as_deref(), Some(PHOTO_URL));
    let day = NaiveDate::from_ymd_opt(2021, 7, 18).unwrap();
    match e {
        PoacherMessage::ResultItem(PoacherResult::Meetup(MeetupResult::Event(e))) => {
            assert_eq!(e.id, "e1");
            assert_eq!(e.group_slug, "rust-chd");
            assert_eq!(e.start_time, day.and_hms_opt(13, 0, 0).unwrap());
            assert_eq!(e.end_time, day.and_hms_opt(15, 30, 0).unwrap());
            assert!(e.is_online);
            assert_eq!(e.charges.and_then(|n| n.as_f64()), Some(2.5));
            assert_eq!(e.currency, None);
            assert_eq!(e.venue, None);
            assert_eq!(e.link, "https://www.meetup.com/rust-chd/events/e1/");
        }
        other => panic!("not an event: {:?}", other),
    }
}

#[test]
fn event_node_in_person() {
    let mut node = event_node("2021-07-18T18:30+05:30");
    node.event_type = Some("physical".to_string());
    match event_node_messages(node).unwrap().1 {
        PoacherMessage::ResultItem(PoacherResult::Meetup(MeetupResult::Event(e))) => {
            assert!(!e.is_online)
        }
        other => panic!("not an event: {:?}", other),
    }
}

#[test]
fn event_node_unreadable_parts() {
    let mut node = event_node("2021-07-18T18:30+05:30");
    node.group = Err(json_error());
    node.event = Err(json_error());
    let (g, e) = event_node_messages(node).unwrap();
    assert_eq!(json_context(&g), Some("Parsing Event->Group node"));
    assert_eq!(json_context(&e), Some("Parsing Event node"));
}

#[test]
fn event_node_start_not_a_string() {
    let mut node = event_node("");
    node.date_time = Err("123".to_string());
    assert!(node_fails(&node));
    let m = event_node_messages(node).unwrap_err();
    assert_eq!(unknown_error(&m), "Got invalid data type in MeetupEvent.dateTime: 123");
}

#[test]
fn event_node_start_unreadable() {
    let m = event_node_messages(event_node("tomorrow")).unwrap_err();
    assert_eq!(unknown_error(&m), "Failed to parse MeetupEvent.dateTime (tomorrow): ParseError(Invalid)");
}

#[test]
fn event_node_end_unreadable() {
    let mut node = event_node("2021-07-18T18:30+05:30");
    node.end_time = Ok("2021-07-18T21:00".to_string());
    let m = event_node_messages(node).unwrap_err();
    assert_eq!(unknown_error(&m), "Failed to parse MeetupEvent endTime: ParseError(\n    TooShort,\n)");
}

#[test]
fn event_node_end_not_a_string() {
    let mut node = event_node("2021-07-18T18:30+05:30");
    node.end_time = Err("null".to_string());
    let m = event_node_messages(node).unwrap_err();
    assert_eq!(unknown_error(&m), "Got invalid data type in MeetupEvent.endTime: null");
}

#[test]
fn event_node_without_photo_id() {
    let mut node = event_node("2021-07-18T18:30+05:30");
    node.photo_id = None;
    let m = event_node_messages(node).unwrap_err();
    assert_eq!(unknown_error(&m), "Group photo ID not found");
}

#[test]
fn event_search_stops_at_first_unreadable_result() {
    let resp = EventSearchResponse {
        results: Some(EventSearchResults {
            has_next_page: Ok(true),
            edges: Some(vec![
                event_node("2021-07-18T18:30+05:30"),
                event_node("soon"),
                event_node("2021-07-19T18:30+05:30"),
            ]),
        }),
    };
    let msgs = event_search_messages(resp);
    assert_eq!(msgs.len(), 4);
    assert_eq!(warning(&msgs[0]), "Events search has next page to fetch");
    assert_eq!(found_group(&msgs[1]).slug, "rust-chd");
    assert!(matches!(
        msgs[2],
        PoacherMessage::ResultItem(PoacherResult::Meetup(MeetupResult::Event(_)))
    ));
    assert_eq!(unknown_error(&msgs[3]), "Failed to parse MeetupEvent.dateTime (soon): ParseError(Invalid)");
}

#[test]
fn event_search_without_results() {
    let msgs = event_search_messages(EventSearchResponse { results: None });
    assert_eq!(msgs.len(), 1);
    assert_eq!(unknown_error(&msgs[0]), "Event search response has unexpected shape");
}

#[test]
fn event_search_without_edges() {
    let msgs = event_search_messages(EventSearchResponse {
        results: Some(EventSearchResults { has_next_page: Ok(false), edges: None }),
    });
    assert_eq!(msgs.len(), 1);
    assert_eq!(unknown_error(&msgs[0]), "Event search response has no edges");
}

#[test]
fn event_search_unreadable_page_info() {
    let msgs = event_search_messages(EventSearchResponse {
        results: Some(EventSearchResults { has_next_page: Err(json_error()), edges: None }),
    });
    assert_eq!(msgs.len(), 1);
    assert_eq!(json_context(&msgs[0]), None);
}

#[test]
fn checked_event_search_without_event_type() {
    let mut node = event_node("2021-07-18T18:30+05:30");
    node.event_type = None;
    let resp = EventSearchResponse {
        results: Some(EventSearchResults { has_next_page: Ok(false), edges: Some(vec![node]) }),
    };
    assert!(checked_event_search_messages(resp).is_none());
}

#[test]
fn checked_event_search_type_past_the_stop() {
    let mut last = event_node("2021-07-18T18:30+05:30");
    last.event_type = None;
    let resp = EventSearchResponse {
        results: Some(EventSearchResults {
            has_next_page: Ok(false),
            edges: Some(vec![event_node("2021-07-18T18:30+05:30"), event_node("later"), last]),
        }),
    };
    let msgs = checked_event_search_messages(resp).unwrap();
    assert_eq!(msgs.len(), 3);
    assert_eq!(unknown_error(&msgs[2]), "Failed to parse MeetupEvent.dateTime (later): ParseError(Invalid)");
}

#[test]
fn json_error_without_context() {
    let err = PoacherError::from(json_error());
    assert!(matches!(err, PoacherError::JsonParseError(_, None)));
}

const GROUP_NODE: &str = r#"{"id": "1", "name": "Rust Chandigarh", "link": "https://www.meetup.com/rust-chd/",
  "description": "Rustaceans", "city": "Chandigarh", "state": "CH", "country": "in", "isPrivate": false,
  "groupPhoto": {"baseUrl": "https://secure.meetupstatic.com/photos/event/", "id": "abc.jpeg"},
  "stats": {"memberCounts": {"all": 10}}}"#;

fn json_error_text(m: &PoacherMessage) -> String {
    match m {
        PoacherMessage::Error(PoacherError::JsonParseError(e, _)) => e.to_string(),
        other => panic!("not a JSON error: {:?}", other),
    }
}

#[test]
fn group_body_not_json() {
    let msgs = group_search_outcome("<html>busy</html>");
    assert_eq!(msgs.len(), 1);
    assert_eq!(json_context(&msgs[0]), None);
}

#[test]
fn group_body_without_results() {
    let msgs = group_search_outcome(r#"{"data": {"results": null}}"#);
    assert_eq!(msgs.len(), 1);
    assert_eq!(unknown_error(&msgs[0]), "Group search response has unexpected shape");
    let msgs = group_search_outcome(r#"{"errors": []}"#);
    assert_eq!(unknown_error(&msgs[0]), "Group search response has unexpected shape");
}

#[test]
fn group_body_page_info_not_a_bool() {
    let msgs = group_search_outcome(r#"{"data": {"results": {"pageInfo": {}, "edges": []}}}"#);
    assert_eq!(msgs.len(), 1);
    assert_eq!(json_context(&msgs[0]), None);
    assert_eq!(json_error_text(&msgs[0]), "invalid type: null, expected a boolean");
}

#[test]
fn group_body_results_lack_the_slug() {
    let body = format!(
        r#"{{"data": {{"results": {{"pageInfo": {{"hasNextPage": true}}, "edges": [{{"node": {{"result": {}}}}}]}}}}}}"#,
        GROUP_NODE
    );
    let msgs = checked_group_search_outcome(&body).unwrap();
    assert_eq!(msgs.len(), 2);
    assert_eq!(warning(&msgs[0]), "Groups search has next page to fetch");
    assert_eq!(json_context(&msgs[1]), Some("Parsing Group node"));
    assert_eq!(json_error_text(&msgs[1]), "missing field `slug`");
}

#[test]
fn group_body_first_unreadable_member() {
    let node = GROUP_NODE.replace(r#""city": "Chandigarh""#, r#""city": 7"#).replace(r#""id": "1""#, r#""id": 1"#);
    let body = format!(
        r#"{{"data": {{"results": {{"pageInfo": {{"hasNextPage": false}}, "edges": [{{"node": {{"result": {}}}}}]}}}}}}"#,
        node
    );
    let msgs = group_search_outcome(&body);
    assert_eq!(msgs.len(), 1);
    assert_eq!(json_error_text(&msgs[0]), "invalid type: integer `7`, expected a string");
}

#[test]
fn group_body_without_photo_id() {
    let node = GROUP_NODE.replace(r#", "id": "abc.jpeg""#, "");
    let body = format!(
        r#"{{"data": {{"results": {{"pageInfo": {{"hasNextPage": false}}, "edges": [{{"node": {{"result": {}}}}}]}}}}}}"#,
        node
    );
    let msgs = group_search_outcome(&body);
    assert_eq!(unknown_error(&msgs[0]), "Group photo ID not found");
}

fn event_body(event_type: &str, date_time: &str) -> String {
    format!(
        r#"{{"data": {{"rankedEvents": {{"pageInfo": {{"hasNextPage": false}}, "edges": [{{"node": {{
            "id": "e1", "slug": "e1", "title": "Hack night", "description": null, "fees": 2.5,
            "currency": "INR", "eventUrl": "https://www.meetup.com/rust-chd/events/e1/",
            "dateTime": {}, "endTime": "2021-07-18T21:00+05:30", "eventType": {},
            "group": {{"id": "1", "slug": "rust-chd", "name": "Rust Chandigarh",
              "link": "https://www.meetup.com/rust-chd/", "description": "Rustaceans",
              "city": "Chandigarh", "state": "CH", "country": "in", "isPrivate": false,
              "groupPhoto": {{"baseUrl": "https://secure.meetupstatic.com/photos/event/", "id": "abc.jpeg"}}}}
        }}}}]}}}}}}"#,
        date_time, event_type
    )
}

#[test]
fn event_body_read() {
    let msgs = checked_event_search_outcome(&event_body(r#""online""#, r#""2021-07-18T18:30+05:30""#)).unwrap();
    assert_eq!(msgs.len(), 2);
    let g = found_group(&msgs[0]);
    assert_eq!(g.slug, "rust-chd");
    assert_eq!(g.photo.as_deref(), Some(PHOTO_URL));
    match &msgs[1] {
        PoacherMessage::ResultItem(PoacherResult::Meetup(MeetupResult::Event(e))) => {
            assert_eq!(e.title, "Hack night");
            assert_eq!(e.description, None);
            assert_eq!(e.charges.as_ref().and_then(|n| n.as_f64()), Some(2.5));
            assert_eq!(e.currency, None);
            assert!(e.is_online);
            let day = NaiveDate::from_ymd_opt(2021, 7, 18).unwrap();
            assert_eq!(e.start_time, day.and_hms_opt(13, 0, 0).unwrap());
        }
        other => panic!("not an event: {:?}", other),
    }
}

#[test]
fn event_body_date_not_a_string() {
    let msgs = event_search_outcome(&event_body(r#""online""#, "[1, 2]"));
    assert_eq!(msgs.len(), 1);
    assert_eq!(unknown_error(&msgs[0]), "Got invalid data type in MeetupEvent.dateTime: [1,2]");
}

#[test]
fn event_body_without_event_type() {
    assert!(checked_event_search_outcome(&event_body("null", r#""2021-07-18T18:30+05:30""#)).is_none());
    // the search stops before it needs the type
    let msgs = checked_event_search_outcome(&event_body("null", r#""soon""#)).unwrap();
    assert_eq!(msgs.len(), 1);
}

#[test]
fn event_body_not_json() {
    let msgs = event_search_outcome("");
    assert_eq!(msgs.len(), 1);
    assert_eq!(json_context(&msgs[0]), None);
}
